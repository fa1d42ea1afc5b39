use thirty_one::UIContext;

fn slots(context: &UIContext) -> (i32, i32, i32) {
    (context.hot, context.active, context.next_hot)
}

#[test]
fn new_context_has_no_widget() {
    assert_eq!(slots(&UIContext::new()), (0, 0, 0));
}

#[test]
fn frame_init_promotes_next_hot_when_nothing_is_active() {
    let mut context = UIContext { hot: 3, active: 0, next_hot: 7 };
    context.frame_init();
    assert_eq!(slots(&context), (7, 0, 0));
}

#[test]
fn frame_init_keeps_hot_when_a_widget_is_active() {
    let mut context = UIContext { hot: 3, active: 5, next_hot: 7 };
    context.frame_init();
    assert_eq!(slots(&context), (3, 5, 0));
}

#[test]
fn frame_init_clears_hot_when_nothing_claimed_the_pointer() {
    let mut context = UIContext { hot: 3, active: 0, next_hot: 0 };
    context.frame_init();
    assert_eq!(slots(&context), (0, 0, 0));
}

#[test]
fn frame_init_counts_a_negative_active_widget_as_active() {
    let mut context = UIContext { hot: 3, active: -1, next_hot: 7 };
    context.frame_init();
    assert_eq!(slots(&context), (3, -1, 0));
}

#[test]
fn the_last_claim_of_a_frame_wins() {
    let mut context = UIContext::new();
    context.frame_init();
    context.set_next_hot(4);
    context.set_next_hot(9);
    assert_eq!(slots(&context), (0, 0, 9));
    context.frame_init();
    assert_eq!(slots(&context), (9, 0, 0));
}

#[test]
fn setters_touch_one_slot_each() {
    let mut context = UIContext { hot: 1, active: 2, next_hot: 3 };
    context.set_active(8);
    assert_eq!(slots(&context), (1, 8, 3));
    context.set_not_active();
    assert_eq!(slots(&context), (1, 0, 3));
    context.set_next_hot(6);
    assert_eq!(slots(&context), (1, 0, 6));
    context.set_not_hot();
    assert_eq!(slots(&context), (0, 0, 6));
}

#[test]
fn a_press_holds_the_hot_widget_over_frames() {
    let mut context = UIContext::new();
    context.set_next_hot(2);
    context.frame_init();
    context.set_active(2);
    context.set_next_hot(5);
    context.frame_init();
    assert_eq!(slots(&context), (2, 2, 0));
    context.set_not_active();
    context.set_next_hot(5);
    context.frame_init();
    assert_eq!(slots(&context), (5, 0, 0));
}
