//! The progression rules: how much experience a completed focus session is
//! worth, which level a total of experience stands for, how a streak of days
//! goes on or breaks, and which stage the mascot has reached.

use vstd::prelude::*;

use crate::calendar::Date;
use crate::models::{FerrisStage, UserProfile};

verus! {

/// Experience for a completed focus session, before any bonus.
pub const BASE_XP: u32 = 100;

/// Bonus experience for each day of the streak.
pub const STREAK_BONUS_PER_DAY: u32 = 10;

/// The most that the streak can add.
pub const MAX_STREAK_BONUS: u32 = 200;

/// The experience that each level takes.
pub const XP_PER_LEVEL: u32 = 500;

/// The experience that a focus session earns at a streak of `streak` days:
/// 100, and 10 more for each day of the streak up to 200 more.
pub open spec fn xp_award(streak: nat) -> nat {
    100 + if streak * 10 <= 200 {
        streak * 10
    } else {
        200
    }
}

/// The level that `total_xp` experience stands for: one level for every full
/// 500, counted from level 1.
pub open spec fn level_of(total_xp: nat) -> nat {
    total_xp / 500 + 1
}

/// The experience gathered within the level that `total_xp` stands for.
pub open spec fn xp_within_level(total_xp: nat) -> int {
    total_xp - (level_of(total_xp) - 1) * 500
}

/// The stage that goes with a level: the egg at level 1, the hatchling at 2
/// and 3, the junior from 4 to 6, the senior from 7 to 9, the king from 10
/// on. Level 0, which no profile has, counts as beyond the last boundary.
pub open spec fn stage_of(level: nat) -> FerrisStage {
    if level == 1 {
        FerrisStage::Egg
    } else if 2 <= level <= 3 {
        FerrisStage::Hatchling
    } else if 4 <= level <= 6 {
        FerrisStage::Junior
    } else if 7 <= level <= 9 {
        FerrisStage::Senior
    } else {
        FerrisStage::King
    }
}

/// Whether a session today carries the streak on: the last session was
/// yesterday.
pub open spec fn streak_continues(last_session_date: Option<Date>, today: Date) -> bool {
    last_session_date matches Some(last) && today.days_after(last) == 1
}

/// The streak after a focus session is completed today. The first session
/// ever starts a streak of 1. Another session on the day of the last one
/// keeps the streak, but not below 1. A session on the day after adds a
/// day. Any other distance, a gap or a day before the last one, starts
/// over at 1.
pub open spec fn next_streak(
    last_session_date: Option<Date>,
    today: Date,
    current_streak: nat,
) -> nat {
    match last_session_date {
        None => 1,
        Some(last) => {
            let days = today.days_after(last);
            if days == 0 {
                if current_streak >= 1 {
                    current_streak
                } else {
                    1
                }
            } else if days == 1 {
                current_streak + 1
            } else {
                1
            }
        },
    }
}

impl UserProfile {
    /// Whether the profile's numbers have room for one more focus session
    /// completed today.
    pub open spec fn can_record(self, today: Date) -> bool {
        &&& streak_continues(self.last_session_date, today) ==> self.current_streak < u32::MAX
        &&& self.total_xp + xp_award(
            next_streak(self.last_session_date, today, self.current_streak as nat),
        ) <= u32::MAX
    }

    /// The profile after a focus session is completed today: the streak
    /// moves on, the longest streak follows it, today becomes the day of
    /// the last session, the experience for the new streak is added, and
    /// the level is that of the new total.
    pub open spec fn after_focus_session(self, today: Date) -> UserProfile {
        let streak = next_streak(self.last_session_date, today, self.current_streak as nat);
        let total = self.total_xp as nat + xp_award(streak);
        UserProfile {
            total_xp: total as u32,
            level: level_of(total) as u32,
            current_streak: streak as u32,
            longest_streak: if streak > self.longest_streak {
                streak as u32
            } else {
                self.longest_streak
            },
            last_session_date: Some(today),
        }
    }
}

/// The experience that a focus session earns at a streak of
/// `current_streak` days.
pub fn calculate_xp(current_streak: u32) -> (xp: u32)
    ensures
        xp == xp_award(current_streak as nat),
        100 <= xp <= 300,
{
    let bonus: u32 = if current_streak >= MAX_STREAK_BONUS / STREAK_BONUS_PER_DAY {
        MAX_STREAK_BONUS
    } else {
        current_streak * STREAK_BONUS_PER_DAY
    };
    BASE_XP + bonus
}

/// The level that `total_xp` experience stands for.
pub fn calculate_level(total_xp: u32) -> (level: u32)
    ensures
        level == level_of(total_xp as nat),
        level >= 1,
{
    (total_xp / XP_PER_LEVEL) + 1
}

/// The total of experience at which `level` is left behind.
pub fn xp_for_next_level(level: u32) -> (xp: u32)
    requires
        level * 500 <= u32::MAX,
    ensures
        xp == level * 500,
{
    level * XP_PER_LEVEL
}

/// How far `total_xp` has come within its level, as the experience gathered
/// in the level and the experience that a level takes. The first is 0
/// exactly where `total_xp` is a multiple of 500.
pub fn level_progress_ratio(total_xp: u32) -> (ratio: (u32, u32))
    ensures
        ratio.0 == xp_within_level(total_xp as nat),
        ratio.1 == 500,
        0 <= ratio.0 < ratio.1,
        ratio.0 == 0 <==> total_xp % 500 == 0,
{
    let level: u32 = calculate_level(total_xp);
    let xp_at_current_level: u32 = (level - 1) * XP_PER_LEVEL;
    let xp_in_level: u32 = total_xp - xp_at_current_level;
    (xp_in_level, XP_PER_LEVEL)
}

/// The stage that goes with `level`.
pub fn ferris_stage(level: u32) -> (stage: FerrisStage)
    ensures
        stage == stage_of(level as nat),
{
    if level == 1 {
        FerrisStage::Egg
    } else if 2 <= level && level <= 3 {
        FerrisStage::Hatchling
    } else if 4 <= level && level <= 6 {
        FerrisStage::Junior
    } else if 7 <= level && level <= 9 {
        FerrisStage::Senior
    } else {
        FerrisStage::King
    }
}

/// The streak after a focus session is completed today.
pub fn update_streak(last_session_date: Option<Date>, today: Date, current_streak: u32) -> (streak:
    u32)
    requires
        streak_continues(last_session_date, today) ==> current_streak < u32::MAX,
    ensures
        streak == next_streak(last_session_date, today, current_streak as nat),
        last_session_date is None ==> streak == 1,
        last_session_date == Some(today) ==> streak == if current_streak >= 1 {
            current_streak
        } else {
            1
        },
        streak_continues(last_session_date, today) ==> streak == current_streak + 1,
        last_session_date matches Some(last) && today.days_after(last) != 0 && today.days_after(
            last,
        ) != 1 ==> streak == 1,
        streak >= 1,
{
    match last_session_date {
        None => 1,
        Some(last_date) => {
            let diff: i64 = today.days_since(&last_date);
            if diff == 0 {
                if current_streak >= 1 {
                    current_streak
                } else {
                    1
                }
            } else if diff == 1 {
                current_streak + 1
            } else {
                1
            }
        },
    }
}

/// Whether `update_streak` may be called: a streak that goes on has room
/// for one more day.
pub fn has_room_for_streak(last_session_date: Option<Date>, today: Date, current_streak: u32) -> (room:
    bool)
    ensures
        room == (streak_continues(last_session_date, today) ==> current_streak < u32::MAX),
{
    match last_session_date {
        Some(last_date) => today.days_since(&last_date) != 1 || current_streak < u32::MAX,
        None => true,
    }
}

/// Whether `record_focus_session` may be called: the streak and the total
/// of experience have room for one more focus session completed today.
pub fn has_room_to_record(profile: &UserProfile, today: Date) -> (room: bool)
    ensures
        room == profile.can_record(today),
{
    if !has_room_for_streak(profile.last_session_date, today, profile.current_streak) {
        return false;
    }
    let streak: u32 = update_streak(profile.last_session_date, today, profile.current_streak);
    let xp: u32 = calculate_xp(streak);
    profile.total_xp <= u32::MAX - xp
}

/// Records in the profile that a focus session was completed today, and
/// returns the experience that it earned.
pub fn record_focus_session(profile: &mut UserProfile, today: Date) -> (xp: u32)
    requires
        old(profile).can_record(today),
    ensures
        *final(profile) == old(profile).after_focus_session(today),
        xp == xp_award(final(profile).current_streak as nat),
        final(profile).current_streak == next_streak(
            old(profile).last_session_date,
            today,
            old(profile).current_streak as nat,
        ),
        final(profile).total_xp == old(profile).total_xp + xp,
        final(profile).level == level_of(final(profile).total_xp as nat),
        final(profile).longest_streak >= final(profile).current_streak,
        final(profile).longest_streak >= old(profile).longest_streak,
        final(profile).last_session_date == Some(today),
{
    let new_streak: u32 = update_streak(profile.last_session_date, today, profile.current_streak);
    profile.current_streak = new_streak;
    if new_streak > profile.longest_streak {
        profile.longest_streak = new_streak;
    }
    profile.last_session_date = Some(today);
    let xp: u32 = calculate_xp(profile.current_streak);
    profile.total_xp = profile.total_xp + xp;
    profile.level = calculate_level(profile.total_xp);
    xp
}

/// A longer streak never earns less, the award lies between 100 and 300,
/// and from a streak of 20 days on it stays at 300.
pub proof fn lemma_xp_award_monotone(shorter: nat, longer: nat)
    requires
        shorter <= longer,
    ensures
        100 <= xp_award(shorter) <= xp_award(longer) <= 300,
        shorter >= 20 ==> xp_award(shorter) == 300 && xp_award(longer) == 300,
{
}

/// More experience never means a lower level, and every level is at least 1.
pub proof fn lemma_level_monotone(less: nat, more: nat)
    requires
        less <= more,
    ensures
        1 <= level_of(less) <= level_of(more),
{
}

/// A total of experience lies within its level: at or above the total at
/// which the level begins, and below the total at which it is left behind.
/// It lies exactly at the beginning where it is a multiple of 500.
pub proof fn lemma_level_bounds(total_xp: nat)
    ensures
        (level_of(total_xp) - 1) * 500 <= total_xp < level_of(total_xp) * 500,
        0 <= xp_within_level(total_xp) < 500,
        xp_within_level(total_xp) == 0 <==> total_xp % 500 == 0,
{
}

/// A focus session that the profile has room for adds between 100 and 300
/// experience, and the level that goes with the total does not fall.
pub proof fn lemma_focus_session_adds_xp(profile: UserProfile, today: Date)
    requires
        profile.can_record(today),
    ensures
        profile.total_xp + 100 <= profile.after_focus_session(today).total_xp <= profile.total_xp
            + 300,
        level_of(profile.total_xp as nat) <= profile.after_focus_session(today).level,
        profile.after_focus_session(today).current_streak >= 1,
        profile.after_focus_session(today).longest_streak >= profile.after_focus_session(
            today,
        ).current_streak,
{
}

/// From level 1 on, a higher level never means an earlier stage.
pub proof fn lemma_stage_monotone(lower: nat, higher: nat)
    requires
        1 <= lower <= higher,
    ensures
        stage_of(lower).rank() <= stage_of(higher).rank(),
{
}

} // verus!
