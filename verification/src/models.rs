//! The plain data of the application: session kinds, session records, the
//! user's profile and the growth stages of the mascot.

use vstd::prelude::*;

use crate::calendar::Date;

verus! {

/// Length of a focus session, in seconds.
pub const FOCUS_DURATION_SECS: u32 = 25 * 60;

/// Length of a short break, in seconds.
pub const SHORT_BREAK_SECS: u32 = 5 * 60;

/// Length of a long break, in seconds.
pub const LONG_BREAK_SECS: u32 = 15 * 60;

/// Every this many completed focus sessions the next break is a long one.
pub const SESSIONS_BEFORE_LONG_BREAK: u32 = 4;

/// What a session is for.
#[derive(Debug, Clone, Copy, PartialEq, Eq, Structural)]
pub enum SessionType {
    Focus,
    ShortBreak,
    LongBreak,
}

impl SessionType {
    /// How long a session of this type lasts, in seconds.
    pub open spec fn duration(self) -> nat {
        match self {
            SessionType::Focus => 1500,
            SessionType::ShortBreak => 300,
            SessionType::LongBreak => 900,
        }
    }

    /// The heading shown while a session of this type runs.
    pub open spec fn label_text(self) -> Seq<char> {
        match self {
            SessionType::Focus => "FOCUS"@,
            SessionType::ShortBreak => "SHORT BREAK"@,
            SessionType::LongBreak => "LONG BREAK"@,
        }
    }

    /// The name under which this type is stored.
    pub open spec fn stored_text(self) -> Seq<char> {
        match self {
            SessionType::Focus => "focus"@,
            SessionType::ShortBreak => "short_break"@,
            SessionType::LongBreak => "long_break"@,
        }
    }

    /// The type that a stored name stands for; an unknown name reads as
    /// a focus session.
    pub open spec fn of_stored_text(text: Seq<char>) -> SessionType {
        if text == "short_break"@ {
            SessionType::ShortBreak
        } else if text == "long_break"@ {
            SessionType::LongBreak
        } else {
            SessionType::Focus
        }
    }

    /// How long a session of this type lasts, in seconds.
    pub fn duration_secs(&self) -> (secs: u32)
        ensures
            secs == self.duration(),
    {
        match self {
            SessionType::Focus => FOCUS_DURATION_SECS,
            SessionType::ShortBreak => SHORT_BREAK_SECS,
            SessionType::LongBreak => LONG_BREAK_SECS,
        }
    }

    /// The heading shown while a session of this type runs.
    pub fn label(&self) -> (text: &'static str)
        ensures
            text@ == self.label_text(),
    {
        match self {
            SessionType::Focus => "FOCUS",
            SessionType::ShortBreak => "SHORT BREAK",
            SessionType::LongBreak => "LONG BREAK",
        }
    }

    /// The name under which this type is stored.
    pub fn as_str(&self) -> (text: &'static str)
        ensures
            text@ == self.stored_text(),
    {
        match self {
            SessionType::Focus => "focus",
            SessionType::ShortBreak => "short_break",
            SessionType::LongBreak => "long_break",
        }
    }

    /// The type that a stored name stands for; an unknown name reads as
    /// a focus session.
    pub fn from_str(s: &str) -> (session_type: SessionType)
        ensures
            session_type == SessionType::of_stored_text(s@),
    {
        if s.eq("short_break") {
            SessionType::ShortBreak
        } else if s.eq("long_break") {
            SessionType::LongBreak
        } else {
            SessionType::Focus
        }
    }

    /// Storing a type and reading the name back gives the same type.
    pub proof fn lemma_stored_text_round_trip(self)
        ensures
            SessionType::of_stored_text(self.stored_text()) == self,
    {
        reveal_strlit("focus");
        reveal_strlit("short_break");
        reveal_strlit("long_break");
        assert("focus"@.len() == 5);
        assert("short_break"@.len() == 11);
        assert("long_break"@.len() == 10);
    }
}

/// One session as it is written to the session log.
#[derive(Debug, Clone)]
pub struct Session {
    /// The key that the store gave the record; `None` before it is stored.
    pub id: Option<i64>,
    pub started_at: String,
    pub completed_at: Option<String>,
    pub duration_secs: u32,
    pub session_type: SessionType,
    pub completed: bool,
}

/// A session record with its texts as character sequences.
pub struct SessionView {
    pub id: Option<i64>,
    pub started_at: Seq<char>,
    pub completed_at: Option<Seq<char>>,
    pub duration_secs: u32,
    pub session_type: SessionType,
    pub completed: bool,
}

impl View for Session {
    type V = SessionView;

    open spec fn view(&self) -> SessionView {
        SessionView {
            id: self.id,
            started_at: self.started_at@,
            completed_at: match self.completed_at {
                Some(text) => Some(text@),
                None => None,
            },
            duration_secs: self.duration_secs,
            session_type: self.session_type,
            completed: self.completed,
        }
    }
}

/// The user's standing: experience, level and day streaks.
#[derive(Debug, Clone, Copy)]
pub struct UserProfile {
    pub total_xp: u32,
    pub level: u32,
    pub current_streak: u32,
    pub longest_streak: u32,
    /// The day of the last completed focus session, if there was one.
    pub last_session_date: Option<Date>,
}

impl UserProfile {
    /// The profile of a user who has not completed a session yet.
    pub open spec fn fresh() -> UserProfile {
        UserProfile {
            total_xp: 0,
            level: 1,
            current_streak: 0,
            longest_streak: 0,
            last_session_date: None,
        }
    }
}

impl Default for UserProfile {
    fn default() -> (profile: Self)
        ensures
            profile == UserProfile::fresh(),
    {
        UserProfile {
            total_xp: 0,
            level: 1,
            current_streak: 0,
            longest_streak: 0,
            last_session_date: None,
        }
    }
}

/// The growth stage of the mascot, which follows the user's level.
#[derive(Debug, Clone, Copy, PartialEq, Eq, Structural)]
pub enum FerrisStage {
    Egg,
    Hatchling,
    Junior,
    Senior,
    King,
}

impl FerrisStage {
    /// The stage's place in the order of growth, from 0 for the egg.
    pub open spec fn rank(self) -> nat {
        match self {
            FerrisStage::Egg => 0,
            FerrisStage::Hatchling => 1,
            FerrisStage::Junior => 2,
            FerrisStage::Senior => 3,
            FerrisStage::King => 4,
        }
    }

    /// The pictogram shown for the stage.
    pub open spec fn emoji_text(self) -> Seq<char> {
        match self {
            FerrisStage::Egg => "\u{f0}\u{178}\u{a5}\u{161}"@,
            FerrisStage::Hatchling => "\u{f0}\u{178}\u{a3}"@,
            FerrisStage::Junior => "\u{f0}\u{178}\u{a6}\u{20ac}"@,
            FerrisStage::Senior => "\u{e2}\u{ad}"@,
            FerrisStage::King => "\u{f0}\u{178}\u{2018}\u{2018}"@,
        }
    }

    /// The stage's name.
    pub open spec fn label_text(self) -> Seq<char> {
        match self {
            FerrisStage::Egg => "Egg"@,
            FerrisStage::Hatchling => "Hatchling"@,
            FerrisStage::Junior => "Junior Crab"@,
            FerrisStage::Senior => "Senior Crab"@,
            FerrisStage::King => "King Crab"@,
        }
    }

    /// The pictogram shown for the stage.
    pub fn emoji(&self) -> (text: &'static str)
        ensures
            text@ == self.emoji_text(),
    {
        match self {
            FerrisStage::Egg => "\u{f0}\u{178}\u{a5}\u{161}",
            FerrisStage::Hatchling => "\u{f0}\u{178}\u{a3}",
            FerrisStage::Junior => "\u{f0}\u{178}\u{a6}\u{20ac}",
            FerrisStage::Senior => "\u{e2}\u{ad}",
            FerrisStage::King => "\u{f0}\u{178}\u{2018}\u{2018}",
        }
    }

    /// The stage's name.
    pub fn label(&self) -> (text: &'static str)
        ensures
            text@ == self.label_text(),
    {
        match self {
            FerrisStage::Egg => "Egg",
            FerrisStage::Hatchling => "Hatchling",
            FerrisStage::Junior => "Junior Crab",
            FerrisStage::Senior => "Senior Crab",
            FerrisStage::King => "King Crab",
        }
    }
}

/// `str`'s `==` holds exactly of strings with the same characters.
pub assume_specification[ <str as PartialEq>::eq ](a: &str, b: &str) -> (same: bool)
    ensures
        same == (a@ == b@),
;

} // verus!
