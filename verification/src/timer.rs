//! The session timer: a state machine that counts one session down, a second
//! for each tick, and keeps count of the focus sessions that ran to their end.

use vstd::prelude::*;

use crate::models::{
    SessionType, FOCUS_DURATION_SECS, LONG_BREAK_SECS, SESSIONS_BEFORE_LONG_BREAK,
    SHORT_BREAK_SECS,
};

verus! {

/// Where the timer stands.
#[derive(Debug, Clone, Copy, PartialEq, Eq, Structural)]
pub enum TimerState {
    /// No session is under way.
    Idle,
    /// A session is counting down.
    Running { remaining_secs: u32, session_type: SessionType },
    /// A session is halted and keeps the time it had left.
    Paused { remaining_secs: u32, session_type: SessionType },
    /// A session has run to its end.
    Finished { session_type: SessionType },
}

/// The timer with its count of completed focus sessions.
#[derive(Debug, Clone, Copy, PartialEq, Eq, Structural)]
pub struct Timer {
    pub state: TimerState,
    pub focus_sessions_completed: u32,
}

impl Timer {
    /// The seconds left of the session under way; 0 where none is.
    pub open spec fn remaining(self) -> nat {
        match self.state {
            TimerState::Running { remaining_secs, .. } => remaining_secs as nat,
            TimerState::Paused { remaining_secs, .. } => remaining_secs as nat,
            _ => 0,
        }
    }

    /// The full length of the session under way; that of a focus session
    /// where none is.
    pub open spec fn total_duration(self) -> nat {
        match self.state {
            TimerState::Running { session_type, .. } => session_type.duration(),
            TimerState::Paused { session_type, .. } => session_type.duration(),
            _ => SessionType::Focus.duration(),
        }
    }

    /// The type of the session that is under way or has just ended.
    pub open spec fn session_type(self) -> Option<SessionType> {
        match self.state {
            TimerState::Running { session_type, .. } => Some(session_type),
            TimerState::Paused { session_type, .. } => Some(session_type),
            TimerState::Finished { session_type } => Some(session_type),
            TimerState::Idle => None,
        }
    }

    /// A session never has more time left than its type lasts. Every state
    /// that the operations below lead to, from a timer that is well formed,
    /// is well formed.
    pub open spec fn wf(self) -> bool {
        self.remaining() <= self.total_duration()
    }

    /// The timer after a session of `session_type` was started.
    pub open spec fn started(self, session_type: SessionType) -> Timer {
        Timer {
            state: TimerState::Running {
                remaining_secs: session_type.duration() as u32,
                session_type,
            },
            focus_sessions_completed: self.focus_sessions_completed,
        }
    }

    /// Whether the next tick ends the session: the timer runs and has at
    /// most one second left.
    pub open spec fn finishes_on_tick(self) -> bool {
        self.state matches TimerState::Running { remaining_secs, .. } && remaining_secs <= 1
    }

    /// Whether the count of completed focus sessions has room for the
    /// session that the next tick would complete.
    pub open spec fn can_tick(self) -> bool {
        self.finishes_on_tick() && self.session_type() == Some(SessionType::Focus)
            ==> self.focus_sessions_completed < u32::MAX
    }

    /// The timer one tick later. Only a running timer changes: it loses a
    /// second, or with at most one second left it finishes, and a focus
    /// session that finishes is counted.
    pub open spec fn ticked(self) -> Timer {
        match self.state {
            TimerState::Running { remaining_secs, session_type } => if remaining_secs <= 1 {
                Timer {
                    state: TimerState::Finished { session_type },
                    focus_sessions_completed: if session_type == SessionType::Focus {
                        (self.focus_sessions_completed + 1) as u32
                    } else {
                        self.focus_sessions_completed
                    },
                }
            } else {
                Timer {
                    state: TimerState::Running {
                        remaining_secs: (remaining_secs - 1) as u32,
                        session_type,
                    },
                    focus_sessions_completed: self.focus_sessions_completed,
                }
            },
            _ => self,
        }
    }

    /// The timer after a request to pause: a running session halts.
    pub open spec fn paused(self) -> Timer {
        match self.state {
            TimerState::Running { remaining_secs, session_type } => Timer {
                state: TimerState::Paused { remaining_secs, session_type },
                focus_sessions_completed: self.focus_sessions_completed,
            },
            _ => self,
        }
    }

    /// The timer after a request to resume: a halted session runs again.
    pub open spec fn resumed(self) -> Timer {
        match self.state {
            TimerState::Paused { remaining_secs, session_type } => Timer {
                state: TimerState::Running { remaining_secs, session_type },
                focus_sessions_completed: self.focus_sessions_completed,
            },
            _ => self,
        }
    }

    /// The timer after a reset: idle, with its count kept.
    pub open spec fn cleared(self) -> Timer {
        Timer { state: TimerState::Idle, focus_sessions_completed: self.focus_sessions_completed }
    }

    /// The type of session that should follow. After a finished focus
    /// session comes a break, a long one whenever the count of completed
    /// focus sessions is a positive multiple of four; after a break, and in
    /// every other state, comes a focus session.
    pub open spec fn next_type(self) -> SessionType {
        match self.state {
            TimerState::Finished { session_type: SessionType::Focus } => {
                if self.focus_sessions_completed > 0 && self.focus_sessions_completed % 4 == 0 {
                    SessionType::LongBreak
                } else {
                    SessionType::ShortBreak
                }
            },
            _ => SessionType::Focus,
        }
    }

    /// The time left as whole minutes and the seconds beyond them.
    pub open spec fn display(self) -> (nat, nat) {
        (self.remaining() / 60, self.remaining() % 60)
    }

    /// The seconds of the session that have gone by: none while idle, all
    /// of them once finished.
    pub open spec fn elapsed(self) -> int {
        match self.state {
            TimerState::Idle => 0,
            _ => self.total_duration() - self.remaining(),
        }
    }

    /// The timer after `n` ticks.
    pub open spec fn ticked_times(self, n: nat) -> Timer
        decreases n,
    {
        if n == 0 {
            self
        } else {
            self.ticked_times((n - 1) as nat).ticked()
        }
    }

    /// How many of the next `n` ticks report that a session finished.
    pub open spec fn finish_signals(self, n: nat) -> nat
        decreases n,
    {
        if n == 0 {
            0
        } else {
            let before = self.ticked_times((n - 1) as nat);
            self.finish_signals((n - 1) as nat) + if before.finishes_on_tick() {
                1nat
            } else {
                0nat
            }
        }
    }

    /// An idle timer that has counted no session yet.
    pub fn new() -> (timer: Timer)
        ensures
            timer == (Timer { state: TimerState::Idle, focus_sessions_completed: 0 }),
    {
        Timer { state: TimerState::Idle, focus_sessions_completed: 0 }
    }

    /// Starts a session of the given type, whatever the timer was doing.
    pub fn start(&mut self, session_type: SessionType)
        ensures
            *final(self) == old(self).started(session_type),
    {
        let duration: u32 = match session_type {
            SessionType::Focus => FOCUS_DURATION_SECS,
            SessionType::ShortBreak => SHORT_BREAK_SECS,
            SessionType::LongBreak => LONG_BREAK_SECS,
        };
        self.state = TimerState::Running { remaining_secs: duration, session_type };
    }

    /// Starts the session that should follow the present state.
    pub fn start_next(&mut self)
        ensures
            *final(self) == old(self).started(old(self).next_type()),
    {
        let next_type = self.next_session_type();
        self.start(next_type);
    }

    /// The type of session that should follow the present state.
    pub fn next_session_type(&self) -> (next: SessionType)
        ensures
            next == self.next_type(),
            self.state == (TimerState::Finished { session_type: SessionType::Focus }) ==> {
                &&& next != SessionType::Focus
                &&& next == SessionType::LongBreak <==> self.focus_sessions_completed > 0
                    && self.focus_sessions_completed % 4 == 0
            },
            self.state != (TimerState::Finished { session_type: SessionType::Focus }) ==> next
                == SessionType::Focus,
    {
        match self.state {
            TimerState::Finished { session_type } => match session_type {
                SessionType::Focus => {
                    if self.focus_sessions_completed > 0 && self.focus_sessions_completed
                        % SESSIONS_BEFORE_LONG_BREAK == 0 {
                        SessionType::LongBreak
                    } else {
                        SessionType::ShortBreak
                    }
                },
                SessionType::ShortBreak | SessionType::LongBreak => SessionType::Focus,
            },
            _ => SessionType::Focus,
        }
    }

    /// Whether `tick` may be called: the count of completed focus sessions
    /// has room for the session that the tick would complete.
    pub fn has_room_to_tick(&self) -> (room: bool)
        ensures
            room == self.can_tick(),
    {
        match self.state {
            TimerState::Running { remaining_secs, session_type } => {
                !(remaining_secs <= 1 && session_type == SessionType::Focus)
                    || self.focus_sessions_completed < u32::MAX
            },
            _ => true,
        }
    }

    /// Lets one second pass. Returns `true` on the tick that ends the
    /// session, and on no other.
    pub fn tick(&mut self) -> (finished: bool)
        requires
            old(self).can_tick(),
        ensures
            *final(self) == old(self).ticked(),
            finished == old(self).finishes_on_tick(),
            finished ==> final(self).state is Finished,
            final(self).focus_sessions_completed == old(self).focus_sessions_completed + if finished
                && old(self).session_type() == Some(SessionType::Focus) {
                1int
            } else {
                0int
            },
            !(old(self).state is Running) ==> *final(self) == *old(self),
    {
        match self.state {
            TimerState::Running { remaining_secs, session_type } => {
                if remaining_secs <= 1 {
                    if session_type == SessionType::Focus {
                        self.focus_sessions_completed = self.focus_sessions_completed + 1;
                    }
                    self.state = TimerState::Finished { session_type };
                    return true;
                }
                self.state = TimerState::Running {
                    remaining_secs: remaining_secs - 1,
                    session_type,
                };
                false
            },
            _ => false,
        }
    }

    /// Halts a running session; does nothing in any other state.
    pub fn pause(&mut self)
        ensures
            *final(self) == old(self).paused(),
    {
        match self.state {
            TimerState::Running { remaining_secs, session_type } => {
                self.state = TimerState::Paused { remaining_secs, session_type };
            },
            _ => {},
        }
    }

    /// Lets a halted session run again; does nothing in any other state.
    pub fn resume(&mut self)
        ensures
            *final(self) == old(self).resumed(),
    {
        match self.state {
            TimerState::Paused { remaining_secs, session_type } => {
                self.state = TimerState::Running { remaining_secs, session_type };
            },
            _ => {},
        }
    }

    /// Gives up the session under way, if any.
    pub fn reset(&mut self)
        ensures
            *final(self) == old(self).cleared(),
    {
        self.state = TimerState::Idle;
    }

    /// The seconds left of the session under way; 0 where none is.
    pub fn remaining_secs(&self) -> (secs: u32)
        ensures
            secs == self.remaining(),
    {
        match self.state {
            TimerState::Running { remaining_secs, .. } => remaining_secs,
            TimerState::Paused { remaining_secs, .. } => remaining_secs,
            _ => 0,
        }
    }

    /// The time left, as minutes and seconds.
    pub fn remaining_display(&self) -> (shown: (u32, u32))
        ensures
            (shown.0 as nat, shown.1 as nat) == self.display(),
            shown.0 * 60 + shown.1 == self.remaining(),
            shown.1 < 60,
    {
        let secs: u32 = self.remaining_secs();
        (secs / 60, secs % 60)
    }

    /// The full length of the session under way; that of a focus session
    /// where none is.
    pub fn total_duration_secs(&self) -> (secs: u32)
        ensures
            secs == self.total_duration(),
    {
        match self.state {
            TimerState::Running { session_type, .. } => session_type.duration_secs(),
            TimerState::Paused { session_type, .. } => session_type.duration_secs(),
            _ => FOCUS_DURATION_SECS,
        }
    }

    /// The share of the session that has gone by, as the seconds elapsed
    /// and the seconds of the whole: nothing of it while idle, all of it
    /// once finished.
    pub fn progress_ratio(&self) -> (ratio: (u32, u32))
        requires
            self.wf(),
        ensures
            ratio.0 == self.elapsed(),
            ratio.1 == self.total_duration(),
            0 <= ratio.0 <= ratio.1,
            0 < ratio.1,
    {
        let total: u32 = self.total_duration_secs();
        match self.state {
            TimerState::Idle => (0, total),
            _ => (total - self.remaining_secs(), total),
        }
    }

    /// The type of the session that is under way or has just ended.
    pub fn current_session_type(&self) -> (current: Option<SessionType>)
        ensures
            current == self.session_type(),
    {
        match self.state {
            TimerState::Running { session_type, .. } => Some(session_type),
            TimerState::Paused { session_type, .. } => Some(session_type),
            TimerState::Finished { session_type } => Some(session_type),
            TimerState::Idle => None,
        }
    }

    /// Whether a session is counting down.
    pub fn is_running(&self) -> (running: bool)
        ensures
            running == (self.state is Running),
    {
        match self.state {
            TimerState::Running { .. } => true,
            _ => false,
        }
    }

    /// Whether a session is halted.
    pub fn is_paused(&self) -> (paused: bool)
        ensures
            paused == (self.state is Paused),
    {
        match self.state {
            TimerState::Paused { .. } => true,
            _ => false,
        }
    }

    /// Whether a session has run to its end.
    pub fn is_finished(&self) -> (finished: bool)
        ensures
            finished == (self.state is Finished),
    {
        match self.state {
            TimerState::Finished { .. } => true,
            _ => false,
        }
    }

    /// Every operation keeps a well-formed timer well formed.
    pub proof fn lemma_operations_keep_wf(self, session_type: SessionType)
        requires
            self.wf(),
        ensures
            self.started(session_type).wf(),
            self.ticked().wf(),
            self.paused().wf(),
            self.resumed().wf(),
            self.cleared().wf(),
    {
    }

    /// The count of completed focus sessions never falls: a tick that has
    /// room keeps it or adds one, and no other operation touches it.
    pub proof fn lemma_count_never_falls(self, session_type: SessionType)
        requires
            self.can_tick(),
        ensures
            self.focus_sessions_completed <= self.ticked().focus_sessions_completed
                <= self.focus_sessions_completed + 1,
            self.started(session_type).focus_sessions_completed == self.focus_sessions_completed,
            self.paused().focus_sessions_completed == self.focus_sessions_completed,
            self.resumed().focus_sessions_completed == self.focus_sessions_completed,
            self.cleared().focus_sessions_completed == self.focus_sessions_completed,
    {
    }

    /// A session counts down to its end in as many ticks as it has
    /// seconds. Of the ticks after `start`, the one that reaches the
    /// session's length reports the finish, and no tick before or after it
    /// does; a focus session that finishes adds one to the count of
    /// completed focus sessions, and nothing else changes that count.
    pub proof fn lemma_countdown(self, session_type: SessionType, n: nat)
        requires
            session_type == SessionType::Focus ==> self.focus_sessions_completed < u32::MAX,
        ensures
            ({
                let begun = self.started(session_type);
                let now = begun.ticked_times(n);
                if n < session_type.duration() {
                    &&& now.state == TimerState::Running {
                        remaining_secs: (session_type.duration() - n) as u32,
                        session_type,
                    }
                    &&& now.focus_sessions_completed == self.focus_sessions_completed
                    &&& begun.finish_signals(n) == 0
                    &&& now.finishes_on_tick() <==> n + 1 == session_type.duration()
                } else {
                    &&& now.state == TimerState::Finished { session_type }
                    &&& now.focus_sessions_completed == self.focus_sessions_completed + (
                    if session_type == SessionType::Focus {
                        1int
                    } else {
                        0int
                    })
                    &&& begun.finish_signals(n) == 1
                    &&& !now.finishes_on_tick()
                }
            }),
        decreases n,
    {
        if n > 0 {
            self.lemma_countdown(session_type, (n - 1) as nat);
        }
    }

    /// Pausing and then resuming leaves the time shown as it was, in every
    /// state; a running timer comes back unchanged.
    pub proof fn lemma_pause_resume_round_trip(self)
        ensures
            self.paused().resumed().display() == self.display(),
            self.paused().resumed().remaining() == self.remaining(),
            self.state is Running ==> self.paused().resumed() == self,
    {
    }
}

} // verus!
