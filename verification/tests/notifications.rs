use ferris_focus::models::{FerrisStage, SessionType};
use ferris_focus::notifications::{append_decimal, level_up_notice, session_complete_notice};

#[test]
fn decimal_numbers() {
    for n in [0u32, 7, 9, 10, 11, 99, 100, 110, 1000, 90_210, 4_294_967_295] {
        let mut text = String::new();
        append_decimal(&mut text, n);
        assert_eq!(text, n.to_string());
    }
    let mut text = "x=".to_string();
    append_decimal(&mut text, 300);
    assert_eq!(text, "x=300");
}

#[test]
fn level_up_notice_names_level_and_stage() {
    let notice = level_up_notice(2, FerrisStage::Hatchling);
    assert_eq!(notice.title, "\u{1f389} Level Up! Level 2");
    assert_eq!(notice.body, "Your Ferris has hatched into a Hatchling! \u{f0}\u{178}\u{a3}");
    assert_eq!(notice.timeout_ms, 8000);

    let notice = level_up_notice(10, FerrisStage::King);
    assert_eq!(notice.title, "\u{1f389} Level Up! Level 10");
    assert_eq!(
        notice.body,
        "Your Ferris has hatched into a King Crab! \u{f0}\u{178}\u{2018}\u{2018}"
    );
}

#[test]
fn focus_notice_names_the_experience() {
    let notice = session_complete_notice(SessionType::Focus, Some(110));
    assert_eq!(notice.title, "\u{1f980} Focus Complete!");
    assert_eq!(notice.body, "Great work! Time for a break. +110 XP!");
    assert_eq!(notice.timeout_ms, 5000);
    let notice = session_complete_notice(SessionType::Focus, Some(0));
    assert_eq!(notice.body, "Great work! Time for a break. +0 XP!");
}

#[test]
fn focus_notice_without_experience() {
    let notice = session_complete_notice(SessionType::Focus, None);
    assert_eq!(notice.title, "\u{1f980} Focus Complete!");
    assert_eq!(notice.body, "Great work! Time for a break.");
}

#[test]
fn break_notices_do_not_name_experience() {
    for xp_earned in [None, Some(300)] {
        let notice = session_complete_notice(SessionType::ShortBreak, xp_earned);
        assert_eq!(notice.title, "\u{2615} Break Over!");
        assert_eq!(notice.body, "Ready to focus again?");
        assert_eq!(notice.timeout_ms, 5000);
        let notice = session_complete_notice(SessionType::LongBreak, xp_earned);
        assert_eq!(notice.title, "\u{1f389} Long Break Over!");
        assert_eq!(notice.body, "You've earned it! Ready to start a new cycle?");
        assert_eq!(notice.timeout_ms, 5000);
    }
}
