use ferris_focus::calendar::Date;
use ferris_focus::models::{FerrisStage, UserProfile};
use ferris_focus::xp::{
    calculate_level, calculate_xp, ferris_stage, has_room_for_streak, has_room_to_record,
    level_progress_ratio, record_focus_session, update_streak, xp_for_next_level,
};

#[test]
fn test_base_xp() {
    assert_eq!(calculate_xp(0), 100);
}

#[test]
fn test_streak_bonus() {
    assert_eq!(calculate_xp(5), 150); // 100 + 5*10
    assert_eq!(calculate_xp(10), 200); // 100 + 10*10
}

#[test]
fn test_streak_bonus_cap() {
    assert_eq!(calculate_xp(50), 300); // 100 + min(500, 200) = 300
    assert_eq!(calculate_xp(100), 300); // same cap
}

#[test]
fn test_level_calculation() {
    assert_eq!(calculate_level(0), 1);
    assert_eq!(calculate_level(499), 1);
    assert_eq!(calculate_level(500), 2);
    assert_eq!(calculate_level(999), 2);
    assert_eq!(calculate_level(1000), 3);
}

#[test]
fn test_ferris_stages() {
    assert_eq!(ferris_stage(1), FerrisStage::Egg);
    assert_eq!(ferris_stage(2), FerrisStage::Hatchling);
    assert_eq!(ferris_stage(3), FerrisStage::Hatchling);
    assert_eq!(ferris_stage(4), FerrisStage::Junior);
    assert_eq!(ferris_stage(7), FerrisStage::Senior);
    assert_eq!(ferris_stage(10), FerrisStage::King);
    assert_eq!(ferris_stage(50), FerrisStage::King);
}

#[test]
fn test_streak_continues() {
    let yesterday = Date::from_ymd_opt(2026, 2, 18).unwrap();
    let today = Date::from_ymd_opt(2026, 2, 19).unwrap();
    assert_eq!(update_streak(Some(yesterday), today, 5), 6);
}

#[test]
fn test_streak_resets() {
    let two_days_ago = Date::from_ymd_opt(2026, 2, 17).unwrap();
    let today = Date::from_ymd_opt(2026, 2, 19).unwrap();
    assert_eq!(update_streak(Some(two_days_ago), today, 5), 1);
}

#[test]
fn test_streak_same_day() {
    let today = Date::from_ymd_opt(2026, 2, 19).unwrap();
    assert_eq!(update_streak(Some(today), today, 3), 3);
}

#[test]
fn test_first_session_streak() {
    let today = Date::from_ymd_opt(2026, 2, 19).unwrap();
    assert_eq!(update_streak(None, today, 0), 1);
}

fn level_progress(total_xp: u32) -> f32 {
    let (xp_in_level, xp_per_level) = level_progress_ratio(total_xp);
    xp_in_level as f32 / xp_per_level as f32
}

#[test]
fn test_level_progress() {
    assert!((level_progress(0) - 0.0).abs() < f32::EPSILON);
    assert!((level_progress(250) - 0.5).abs() < 0.01);
    assert!((level_progress(500) - 0.0).abs() < f32::EPSILON); // Level 2, 0 progress
    assert!((level_progress(750) - 0.5).abs() < 0.01);
}

#[test]
fn xp_grows_by_ten_a_day_up_to_twenty_days() {
    for streak in 0..=20u32 {
        assert_eq!(calculate_xp(streak), 100 + 10 * streak);
    }
    let mut last = 0;
    for streak in 0..100u32 {
        let xp = calculate_xp(streak);
        assert!((100..=300).contains(&xp));
        assert!(xp >= last);
        last = xp;
    }
}

#[test]
fn xp_stays_at_the_cap_for_every_longer_streak() {
    for streak in [20u32, 21, 1000, 429_496_729, 429_496_730, u32::MAX - 1, u32::MAX] {
        assert_eq!(calculate_xp(streak), 300);
    }
    assert_eq!(calculate_xp(19), 290);
}

#[test]
fn level_is_one_more_than_the_full_five_hundreds() {
    for total_xp in [0u32, 1, 499, 500, 501, 12_345, 4_294_967_000, u32::MAX] {
        assert_eq!(calculate_level(total_xp), total_xp / 500 + 1);
    }
    assert_eq!(calculate_level(u32::MAX), 8_589_935);
}

#[test]
fn level_progress_ratio_counts_within_the_level() {
    assert_eq!(level_progress_ratio(0), (0, 500));
    assert_eq!(level_progress_ratio(1), (1, 500));
    assert_eq!(level_progress_ratio(499), (499, 500));
    assert_eq!(level_progress_ratio(500), (0, 500));
    assert_eq!(level_progress_ratio(1250), (250, 500));
    assert_eq!(level_progress_ratio(u32::MAX), (295, 500));
    for total_xp in 0..3000u32 {
        let (within, whole) = level_progress_ratio(total_xp);
        assert!(within < whole);
        assert_eq!(within == 0, total_xp % 500 == 0);
    }
}

#[test]
fn xp_for_next_level_is_where_the_level_ends() {
    assert_eq!(xp_for_next_level(0), 0);
    assert_eq!(xp_for_next_level(1), 500);
    assert_eq!(xp_for_next_level(2), 1000);
    assert_eq!(xp_for_next_level(8_589_934), 4_294_967_000);
    for total_xp in [0u32, 499, 500, 7777] {
        let level = calculate_level(total_xp);
        assert!(total_xp < xp_for_next_level(level));
        assert!(total_xp >= xp_for_next_level(level - 1));
    }
}

#[test]
fn stage_boundaries() {
    let expected = [
        (1, FerrisStage::Egg),
        (2, FerrisStage::Hatchling),
        (3, FerrisStage::Hatchling),
        (4, FerrisStage::Junior),
        (5, FerrisStage::Junior),
        (6, FerrisStage::Junior),
        (7, FerrisStage::Senior),
        (8, FerrisStage::Senior),
        (9, FerrisStage::Senior),
        (10, FerrisStage::King),
        (11, FerrisStage::King),
        (u32::MAX, FerrisStage::King),
        (0, FerrisStage::King),
    ];
    for (level, stage) in expected {
        assert_eq!(ferris_stage(level), stage);
    }
}

#[test]
fn first_session_starts_a_streak_of_one_whatever_the_count() {
    for today in [Date { days_from_ce: 1 }, Date { days_from_ce: 739_666 }, Date { days_from_ce: -5 }] {
        for streak in [0u32, 1, 9, u32::MAX] {
            assert_eq!(update_streak(None, today, streak), 1);
        }
    }
}

#[test]
fn same_day_keeps_the_streak_but_not_below_one() {
    let today = Date::from_ymd_opt(2026, 2, 19).unwrap();
    assert_eq!(update_streak(Some(today), today, 0), 1);
    assert_eq!(update_streak(Some(today), today, 1), 1);
    assert_eq!(update_streak(Some(today), today, 8), 8);
    assert_eq!(update_streak(Some(today), today, u32::MAX), u32::MAX);
}

#[test]
fn next_day_adds_one_across_month_and_year_ends() {
    let pairs = [
        ((2026, 2, 28), (2026, 3, 1)),
        ((2024, 2, 28), (2024, 2, 29)),
        ((2024, 2, 29), (2024, 3, 1)),
        ((2025, 12, 31), (2026, 1, 1)),
    ];
    for ((y1, m1, d1), (y2, m2, d2)) in pairs {
        let last = Date::from_ymd_opt(y1, m1, d1).unwrap();
        let today = Date::from_ymd_opt(y2, m2, d2).unwrap();
        assert_eq!(update_streak(Some(last), today, 0), 1);
        assert_eq!(update_streak(Some(last), today, 41), 42);
        assert!(has_room_for_streak(Some(last), today, u32::MAX - 1));
        assert!(!has_room_for_streak(Some(last), today, u32::MAX));
    }
}

#[test]
fn a_gap_or_a_day_in_the_past_starts_over() {
    let today = Date::from_ymd_opt(2026, 2, 19).unwrap();
    for back in [2, 3, 30, 365, 100_000] {
        let last = Date { days_from_ce: today.days_from_ce - back };
        assert_eq!(update_streak(Some(last), today, 5), 1);
    }
    for ahead in [1, 2, 400] {
        let last = Date { days_from_ce: today.days_from_ce + ahead };
        assert_eq!(update_streak(Some(last), today, 5), 1);
        assert!(has_room_for_streak(Some(last), today, u32::MAX));
    }
    let first = Date { days_from_ce: i32::MIN };
    let last = Date { days_from_ce: i32::MAX };
    assert_eq!(update_streak(Some(first), last, 5), 1);
    assert_eq!(update_streak(Some(last), first, 5), 1);
}

#[test]
fn three_sessions_over_four_days() {
    let day = Date::from_ymd_opt(2026, 2, 19).unwrap();
    let mut profile = UserProfile::default();

    assert!(has_room_to_record(&profile, day));
    let xp = record_focus_session(&mut profile, day);
    assert_eq!(profile.current_streak, 1);
    assert_eq!(profile.longest_streak, 1);
    assert_eq!(profile.level, 1);
    assert_eq!(profile.last_session_date, Some(day));
    assert_eq!(xp, calculate_xp(1));
    assert_eq!(xp, 110);
    assert_eq!(profile.total_xp, 110);

    let next_day = Date::from_ymd_opt(2026, 2, 20).unwrap();
    let xp = record_focus_session(&mut profile, next_day);
    assert_eq!(profile.current_streak, 2);
    assert_eq!(profile.longest_streak, 2);
    assert_eq!(profile.level, 1);
    assert_eq!(xp, calculate_xp(2));
    assert_eq!(xp, 120);
    assert_eq!(profile.total_xp, 230);

    let after_gap = Date::from_ymd_opt(2026, 2, 22).unwrap();
    let xp = record_focus_session(&mut profile, after_gap);
    assert_eq!(profile.current_streak, 1);
    assert_eq!(profile.longest_streak, 2);
    assert_eq!(profile.level, 1);
    assert_eq!(profile.last_session_date, Some(after_gap));
    assert_eq!(xp, 110);
    assert_eq!(profile.total_xp, 340);
}

#[test]
fn recording_lifts_the_level_with_the_total() {
    let today = Date::from_ymd_opt(2026, 2, 19).unwrap();
    let mut profile = UserProfile {
        total_xp: 1390,
        level: 3,
        current_streak: 19,
        longest_streak: 30,
        last_session_date: Some(Date { days_from_ce: today.days_from_ce - 1 }),
    };
    let xp = record_focus_session(&mut profile, today);
    assert_eq!(xp, 300);
    assert_eq!(profile.total_xp, 1690);
    assert_eq!(profile.level, 4);
    assert_eq!(profile.current_streak, 20);
    assert_eq!(profile.longest_streak, 30);
}

#[test]
fn a_full_profile_has_no_room() {
    let today = Date::from_ymd_opt(2026, 2, 19).unwrap();
    let yesterday = Date { days_from_ce: today.days_from_ce - 1 };
    let mut profile = UserProfile {
        total_xp: u32::MAX - 110,
        level: 1,
        current_streak: 0,
        longest_streak: 0,
        last_session_date: None,
    };
    assert!(has_room_to_record(&profile, today));
    profile.total_xp = u32::MAX - 109;
    assert!(!has_room_to_record(&profile, today));
    profile.total_xp = 0;
    profile.current_streak = u32::MAX;
    profile.last_session_date = Some(yesterday);
    assert!(!has_room_to_record(&profile, today));
    profile.last_session_date = Some(today);
    assert!(has_room_to_record(&profile, today));
}
