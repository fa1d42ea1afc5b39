use thirty_one::text::{push_decimal, push_signed_decimal};
use thirty_one::{KnockerOrWinner, Participant, Turn};

fn decimal(n: u64) -> String {
    let mut s = String::new();
    push_decimal(&mut s, n);
    s
}

fn signed(n: i64) -> String {
    let mut s = String::new();
    push_signed_decimal(&mut s, n);
    s
}

#[test]
fn decimal_of_single_digits() {
    assert_eq!(decimal(0), "0");
    assert_eq!(decimal(7), "7");
    assert_eq!(decimal(9), "9");
}

#[test]
fn decimal_of_longer_numbers() {
    assert_eq!(decimal(10), "10");
    assert_eq!(decimal(1234567890), "1234567890");
    assert_eq!(decimal(100), "100");
    assert_eq!(decimal(u64::MAX), "18446744073709551615");
}

#[test]
fn decimal_agrees_with_the_standard_rendering() {
    for n in (0..100_000u64).step_by(37) {
        assert_eq!(decimal(n), n.to_string());
    }
}

#[test]
fn decimal_is_appended_to_what_is_there() {
    let mut s = String::from("n = ");
    push_decimal(&mut s, 42);
    assert_eq!(s, "n = 42");
    push_signed_decimal(&mut s, -1);
    assert_eq!(s, "n = 42-1");
}

#[test]
fn signed_decimal_puts_a_minus_before_negative_numbers() {
    assert_eq!(signed(0), "0");
    assert_eq!(signed(15), "15");
    assert_eq!(signed(-1), "-1");
    assert_eq!(signed(-250), "-250");
    assert_eq!(signed(i64::MAX), "9223372036854775807");
    assert_eq!(signed(i64::MIN), "-9223372036854775808");
}

#[test]
fn participant_labels() {
    assert_eq!(Participant::Player.display(), "You");
    assert_eq!(Participant::Cpu(0).display(), "Cpu 0");
    assert_eq!(Participant::Cpu(12).display(), "Cpu 12");
}

#[test]
fn participants_are_equal_when_they_are_the_same_one() {
    assert_eq!(Participant::Player, Participant::Player);
    assert_eq!(Participant::Cpu(2), Participant::Cpu(2));
    assert_ne!(Participant::Cpu(2), Participant::Cpu(3));
    assert_ne!(Participant::Player, Participant::Cpu(0));
    assert_ne!(
        KnockerOrWinner::Knocker(Participant::Player),
        KnockerOrWinner::Winner(Participant::Player)
    );
}

#[test]
fn a_turn_carries_its_knocker_when_cloned() {
    let turn = Turn::CpuTurn(Some(Participant::Cpu(1)));
    let copy = turn.clone();
    assert!(matches!(copy, Turn::CpuTurn(Some(Participant::Cpu(1)))));
    let summary = Turn::CpuSummary(Some(KnockerOrWinner::Winner(Participant::Player)));
    assert!(matches!(
        summary.clone(),
        Turn::CpuSummary(Some(KnockerOrWinner::Winner(Participant::Player)))
    ));
}
