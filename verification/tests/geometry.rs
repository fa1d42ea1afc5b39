use thirty_one::{Point, Rect, Size};

#[test]
fn new_point_keeps_its_coordinates() {
    let point = Point::new(10, 20);
    assert_eq!((point.x, point.y), (10, 20));
    assert_eq!(Point::new(0, 0), Point { x: 0, y: 0 });
    assert_eq!(Point::new(i32::MAX, 0), Point { x: i32::MAX, y: 0 });
}

#[test]
fn new_safe_raises_negative_coordinates_to_zero() {
    assert_eq!(Point::new_safe(3, 4), Point { x: 3, y: 4 });
    assert_eq!(Point::new_safe(-3, 4), Point { x: 0, y: 4 });
    assert_eq!(Point::new_safe(3, -4), Point { x: 3, y: 0 });
    assert_eq!(Point::new_safe(-1, -1), Point { x: 0, y: 0 });
    assert_eq!(Point::new_safe(i32::MIN, i32::MAX), Point { x: 0, y: i32::MAX });
}

#[test]
fn add_moves_a_point_and_stops_at_zero() {
    let point = Point::new(5, 6);
    assert_eq!(point.add(2, 3), Point { x: 7, y: 9 });
    assert_eq!(point.add(-5, -6), Point { x: 0, y: 0 });
    assert_eq!(point.add(-9, 1), Point { x: 0, y: 7 });
    assert_eq!(point.add(0, -100), Point { x: 5, y: 0 });
}

#[test]
fn new_size_keeps_width_and_height() {
    let size = Size::new(30, 40);
    assert_eq!((size.width, size.height), (30, 40));
    assert_eq!(Size::new(0, 0), Size { width: 0, height: 0 });
}

#[test]
fn size_label_joins_width_and_height() {
    assert_eq!(Size::new(80, 25).display(), "80x25");
    assert_eq!(Size::new(0, 0).display(), "0x0");
    assert_eq!(Size { width: -3, height: 7 }.display(), "-3x7");
    assert_eq!(
        Size { width: i32::MIN, height: i32::MAX }.display(),
        "-2147483648x2147483647"
    );
}

#[test]
fn rect_from_size_places_the_four_corners() {
    let rect = Rect::from_size(Point::new(10, 20), Size::new(30, 40));
    assert_eq!(rect.top_left, Point::new(10, 20));
    assert_eq!(rect.top_right, Point::new(40, 20));
    assert_eq!(rect.bottom_left, Point::new(10, 60));
    assert_eq!(rect.bottom_right, Point::new(40, 60));
    assert_eq!(rect.size, Size::new(30, 40));
}

#[test]
fn rect_from_size_takes_a_negative_size_that_stays_on_the_grid() {
    let rect = Rect::from_size(Point::new(10, 20), Size { width: -4, height: -20 });
    assert_eq!(rect.top_left, Point::new(10, 20));
    assert_eq!(rect.top_right, Point::new(6, 20));
    assert_eq!(rect.bottom_left, Point::new(10, 0));
    assert_eq!(rect.bottom_right, Point::new(6, 0));
    assert_eq!(rect.size, Size { width: -4, height: -20 });
}

#[test]
fn rect_from_points_measures_the_size() {
    let rect = Rect::from_points(Point::new(10, 20), Point::new(30, 40));
    assert_eq!(rect.top_left, Point::new(10, 20));
    assert_eq!(rect.top_right, Point::new(30, 20));
    assert_eq!(rect.bottom_left, Point::new(10, 40));
    assert_eq!(rect.bottom_right, Point::new(30, 40));
    assert_eq!(rect.size, Size::new(20, 20));
}

#[test]
fn rect_from_points_takes_an_empty_rectangle() {
    let rect = Rect::from_points(Point::new(5, 5), Point::new(5, 5));
    assert_eq!(rect.top_right, Point::new(5, 5));
    assert_eq!(rect.bottom_left, Point::new(5, 5));
    assert_eq!(rect.size, Size::new(0, 0));
}

#[test]
fn rect_from_values_is_rect_from_size() {
    assert_eq!(
        Rect::from_values(10, 20, 30, 40),
        Rect::from_size(Point::new(10, 20), Size::new(30, 40))
    );
    let rect = Rect::from_values(1, 2, 3, 4);
    assert_eq!(rect.bottom_right, Point::new(4, 6));
}

#[test]
fn rect_from_point_values_is_rect_from_points() {
    assert_eq!(
        Rect::from_point_values(10, 20, 30, 40),
        Rect::from_points(Point::new(10, 20), Point::new(30, 40))
    );
    let rect = Rect::from_point_values(0, 0, i32::MAX, i32::MAX);
    assert_eq!(rect.size, Size::new(i32::MAX, i32::MAX));
    assert_eq!(rect.top_right, Point::new(i32::MAX, 0));
}
