//! The wording of the desktop notices. Showing a notice is the caller's
//! part; what it says is decided here.

use vstd::prelude::*;
use vstd::string::StringExecFns;

use crate::models::{FerrisStage, SessionType};

verus! {

/// A notice to show on the desktop.
#[derive(Debug)]
pub struct Notice {
    pub title: String,
    pub body: String,
    /// How long the notice stays, in milliseconds.
    pub timeout_ms: u32,
}

/// A notice with its texts as character sequences.
pub struct NoticeView {
    pub title: Seq<char>,
    pub body: Seq<char>,
    pub timeout_ms: u32,
}

impl View for Notice {
    type V = NoticeView;

    open spec fn view(&self) -> NoticeView {
        NoticeView { title: self.title@, body: self.body@, timeout_ms: self.timeout_ms }
    }
}

/// The numeral for a single digit.
pub open spec fn digit_text(digit: nat) -> Seq<char>
    recommends
        digit < 10,
{
    if digit == 0 {
        "0"@
    } else if digit == 1 {
        "1"@
    } else if digit == 2 {
        "2"@
    } else if digit == 3 {
        "3"@
    } else if digit == 4 {
        "4"@
    } else if digit == 5 {
        "5"@
    } else if digit == 6 {
        "6"@
    } else if digit == 7 {
        "7"@
    } else if digit == 8 {
        "8"@
    } else {
        "9"@
    }
}

/// A number written in decimal, without leading zeros.
pub open spec fn decimal_text(n: nat) -> Seq<char>
    decreases n,
{
    if n < 10 {
        digit_text(n)
    } else {
        decimal_text(n / 10) + digit_text(n % 10)
    }
}

/// What the notice of a level-up says for the level and its stage.
pub open spec fn level_up_notice_text(new_level: u32, stage: FerrisStage) -> NoticeView {
    NoticeView {
        title: "\u{1f389} Level Up! Level "@ + decimal_text(new_level as nat),
        body: "Your Ferris has hatched into a "@ + stage.label_text() + "! "@ + stage.emoji_text(),
        timeout_ms: 8000,
    }
}

/// The words that name the experience earned, if any was.
pub open spec fn xp_text(xp_earned: Option<u32>) -> Seq<char> {
    match xp_earned {
        Some(xp) => " +"@ + decimal_text(xp as nat) + " XP!"@,
        None => Seq::empty(),
    }
}

/// What the notice of a completed session says. Only the notice of a focus
/// session names the experience earned.
pub open spec fn session_complete_notice_text(
    session_type: SessionType,
    xp_earned: Option<u32>,
) -> NoticeView {
    match session_type {
        SessionType::Focus => NoticeView {
            title: "\u{1f980} Focus Complete!"@,
            body: "Great work! Time for a break."@ + xp_text(xp_earned),
            timeout_ms: 5000,
        },
        SessionType::ShortBreak => NoticeView {
            title: "\u{2615} Break Over!"@,
            body: "Ready to focus again?"@,
            timeout_ms: 5000,
        },
        SessionType::LongBreak => NoticeView {
            title: "\u{1f389} Long Break Over!"@,
            body: "You've earned it! Ready to start a new cycle?"@,
            timeout_ms: 5000,
        },
    }
}

fn digit_str(digit: u32) -> (text: &'static str)
    requires
        digit < 10,
    ensures
        text@ == digit_text(digit as nat),
{
    if digit == 0 {
        "0"
    } else if digit == 1 {
        "1"
    } else if digit == 2 {
        "2"
    } else if digit == 3 {
        "3"
    } else if digit == 4 {
        "4"
    } else if digit == 5 {
        "5"
    } else if digit == 6 {
        "6"
    } else if digit == 7 {
        "7"
    } else if digit == 8 {
        "8"
    } else {
        "9"
    }
}

/// Writes `n` in decimal at the end of `text`.
pub fn append_decimal(text: &mut String, n: u32)
    ensures
        final(text)@ == old(text)@ + decimal_text(n as nat),
    decreases n,
{
    if n >= 10 {
        append_decimal(text, n / 10);
        text.append(digit_str(n % 10));
        assert(text@ =~= old(text)@ + (decimal_text((n / 10) as nat) + digit_text((n % 10) as nat)));
    } else {
        text.append(digit_str(n));
    }
}

/// The notice that tells of a level-up.
pub fn level_up_notice(new_level: u32, stage: FerrisStage) -> (notice: Notice)
    ensures
        notice@ == level_up_notice_text(new_level, stage),
{
    let mut title = String::from_str("\u{1f389} Level Up! Level ");
    append_decimal(&mut title, new_level);
    let mut body = String::from_str("Your Ferris has hatched into a ");
    body.append(stage.label());
    body.append("! ");
    body.append(stage.emoji());
    Notice { title, body, timeout_ms: 8000 }
}

/// The notice that tells of a completed session.
pub fn session_complete_notice(session_type: SessionType, xp_earned: Option<u32>) -> (notice:
    Notice)
    ensures
        notice@ == session_complete_notice_text(session_type, xp_earned),
{
    match session_type {
        SessionType::Focus => {
            let mut body = String::from_str("Great work! Time for a break.");
            match xp_earned {
                Some(xp) => {
                    let mut earned = String::from_str(" +");
                    append_decimal(&mut earned, xp);
                    earned.append(" XP!");
                    body.append(earned.as_str());
                },
                None => {
                    assert(body@ =~= "Great work! Time for a break."@ + Seq::<char>::empty());
                },
            }
            Notice { title: String::from_str("\u{1f980} Focus Complete!"), body, timeout_ms: 5000 }
        },
        SessionType::ShortBreak => Notice {
            title: String::from_str("\u{2615} Break Over!"),
            body: String::from_str("Ready to focus again?"),
            timeout_ms: 5000,
        },
        SessionType::LongBreak => Notice {
            title: String::from_str("\u{1f389} Long Break Over!"),
            body: String::from_str("You've earned it! Ready to start a new cycle?"),
            timeout_ms: 5000,
        },
    }
}

} // verus!
