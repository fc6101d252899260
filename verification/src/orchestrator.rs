//! The glue between the timer, the progression rules and the outside world.
//!
//! The orchestrator holds what the application knows while it runs. Each
//! command moves it to its next state. When a tick ends a session, the
//! command also hands back what the caller has to do about it: the record to
//! append to the session log, the profile to store, and what to announce.
//! Reading the clock, storing and announcing are the caller's part.

use vstd::prelude::*;

use crate::calendar::Date;
use crate::models::{
    FerrisStage, Session, SessionType, SessionView, UserProfile, FOCUS_DURATION_SECS,
};
use crate::timer::{Timer, TimerState};
use crate::xp::{ferris_stage, has_room_to_record, record_focus_session, stage_of, xp_award};

verus! {

/// What the user or the clock asks of the orchestrator.
#[derive(Debug, Clone, Copy, PartialEq, Eq, Structural)]
pub enum Command {
    /// A second has passed.
    Tick,
    /// Start the session that is due.
    Start,
    /// Halt the running session, or let the halted one run again.
    PauseResume,
    /// Give up the session under way.
    Skip,
    /// The user has seen the level-up notice.
    DismissLevelUp,
}

/// A level that the user has just reached, with the stage that goes with it.
#[derive(Debug, Clone, Copy, PartialEq, Eq, Structural)]
pub struct LevelUp {
    pub level: u32,
    pub stage: FerrisStage,
}

/// What follows from a session that ran to its end.
#[derive(Debug)]
pub struct Completion {
    /// The record to append to the session log.
    pub session: Session,
    /// The profile to store.
    pub profile: UserProfile,
    /// The experience that the session earned; `None` for a break.
    pub xp_earned: Option<u32>,
    /// The level-up to announce, if the session lifted the level.
    pub level_up: Option<LevelUp>,
}

/// A completion with its texts as character sequences.
pub struct CompletionView {
    pub session: SessionView,
    pub profile: UserProfile,
    pub xp_earned: Option<u32>,
    pub level_up: Option<LevelUp>,
}

impl View for Completion {
    type V = CompletionView;

    open spec fn view(&self) -> CompletionView {
        CompletionView {
            session: self.session@,
            profile: self.profile,
            xp_earned: self.xp_earned,
            level_up: self.level_up,
        }
    }
}

/// The running application's state.
#[derive(Debug)]
pub struct Orchestrator {
    pub timer: Timer,
    pub profile: UserProfile,
    /// When the session under way was started, as the clock's text.
    pub session_start_time: Option<String>,
    /// Focus sessions completed today.
    pub today_sessions: u32,
    /// Focus sessions completed in all.
    pub total_sessions: u32,
    /// Seconds of focus in all.
    pub total_focus_secs: u32,
    /// The level whose notice is still on show.
    pub level_up: Option<u32>,
}

/// The orchestrator with its text as a character sequence.
pub struct OrchestratorView {
    pub timer: Timer,
    pub profile: UserProfile,
    pub session_start_time: Option<Seq<char>>,
    pub today_sessions: u32,
    pub total_sessions: u32,
    pub total_focus_secs: u32,
    pub level_up: Option<u32>,
}

/// The characters of a text that may be absent.
pub open spec fn text_view(text: Option<String>) -> Option<Seq<char>> {
    match text {
        Some(t) => Some(t@),
        None => None,
    }
}

impl View for Orchestrator {
    type V = OrchestratorView;

    open spec fn view(&self) -> OrchestratorView {
        OrchestratorView {
            timer: self.timer,
            profile: self.profile,
            session_start_time: text_view(self.session_start_time),
            today_sessions: self.today_sessions,
            total_sessions: self.total_sessions,
            total_focus_secs: self.total_focus_secs,
            level_up: self.level_up,
        }
    }
}

impl OrchestratorView {
    /// The state at launch, from what the store gave. Whatever could not be
    /// read counts as a fresh profile and as zero.
    pub open spec fn launched(
        profile: Option<UserProfile>,
        today_sessions: Option<u32>,
        totals: Option<(u32, u32)>,
    ) -> OrchestratorView {
        OrchestratorView {
            timer: Timer { state: TimerState::Idle, focus_sessions_completed: 0 },
            profile: match profile {
                Some(p) => p,
                None => UserProfile::fresh(),
            },
            session_start_time: None,
            today_sessions: match today_sessions {
                Some(n) => n,
                None => 0,
            },
            total_sessions: match totals {
                Some(t) => t.0,
                None => 0,
            },
            total_focus_secs: match totals {
                Some(t) => t.1,
                None => 0,
            },
            level_up: None,
        }
    }

    /// The state after the statistics were read again. A count that could
    /// not be read shows as zero; a profile that could not be read leaves
    /// the one in memory.
    pub open spec fn refreshed(
        self,
        today_sessions: Option<u32>,
        totals: Option<(u32, u32)>,
        profile: Option<UserProfile>,
    ) -> OrchestratorView {
        OrchestratorView {
            profile: match profile {
                Some(p) => p,
                None => self.profile,
            },
            today_sessions: match today_sessions {
                Some(n) => n,
                None => 0,
            },
            total_sessions: match totals {
                Some(t) => t.0,
                None => 0,
            },
            total_focus_secs: match totals {
                Some(t) => t.1,
                None => 0,
            },
            ..self
        }
    }

    /// The state after `Start` at the time `timestamp`: the session that is
    /// due runs, and its start is noted.
    pub open spec fn started(self, timestamp: Seq<char>) -> OrchestratorView {
        OrchestratorView {
            timer: self.timer.started(self.timer.next_type()),
            session_start_time: Some(timestamp),
            ..self
        }
    }

    /// The state after `PauseResume`: a running session halts, a halted one
    /// runs again, and nothing else changes.
    pub open spec fn pause_resumed(self) -> OrchestratorView {
        OrchestratorView {
            timer: if self.timer.state is Running {
                self.timer.paused()
            } else {
                self.timer.resumed()
            },
            ..self
        }
    }

    /// The state after `Skip`: a session under way, running or halted, is
    /// given up and leaves no record.
    pub open spec fn skipped(self) -> OrchestratorView {
        if self.timer.state is Running || self.timer.state is Paused {
            OrchestratorView { timer: self.timer.cleared(), session_start_time: None, ..self }
        } else {
            self
        }
    }

    /// The state after `DismissLevelUp`.
    pub open spec fn level_up_dismissed(self) -> OrchestratorView {
        OrchestratorView { level_up: None, ..self }
    }

    /// The type of the session that has ended.
    pub open spec fn ended_type(self) -> SessionType {
        match self.timer.session_type() {
            Some(session_type) => session_type,
            None => SessionType::Focus,
        }
    }

    /// Whether the numbers have room for the session that has ended, should
    /// it be a focus session.
    pub open spec fn can_complete(self, today: Date) -> bool {
        self.ended_type() == SessionType::Focus ==> {
            &&& self.profile.can_record(today)
            &&& self.today_sessions < u32::MAX
            &&& self.total_sessions < u32::MAX
            &&& self.total_focus_secs + 1500 <= u32::MAX
        }
    }

    /// The profile after the session that has ended: a focus session is
    /// recorded in it, a break leaves it alone.
    pub open spec fn profile_after(self, today: Date) -> UserProfile {
        if self.ended_type() == SessionType::Focus {
            self.profile.after_focus_session(today)
        } else {
            self.profile
        }
    }

    /// The level-up that the session that has ended brings: the level of
    /// the profile afterwards, if it is above the level before.
    pub open spec fn level_up_after(self, today: Date) -> Option<LevelUp> {
        let level = self.profile_after(today).level;
        if level > self.profile.level {
            Some(LevelUp { level, stage: stage_of(level as nat) })
        } else {
            None
        }
    }

    /// The state after the session that has ended was dealt with.
    pub open spec fn completed(self, today: Date) -> OrchestratorView {
        let focus = self.ended_type() == SessionType::Focus;
        OrchestratorView {
            timer: self.timer,
            profile: self.profile_after(today),
            session_start_time: None,
            today_sessions: if focus {
                (self.today_sessions + 1) as u32
            } else {
                self.today_sessions
            },
            total_sessions: if focus {
                (self.total_sessions + 1) as u32
            } else {
                self.total_sessions
            },
            total_focus_secs: if focus {
                (self.total_focus_secs + 1500) as u32
            } else {
                self.total_focus_secs
            },
            level_up: match self.level_up_after(today) {
                Some(reached) => Some(reached.level),
                None => self.level_up,
            },
        }
    }

    /// What the caller has to store and to announce for the session that
    /// has ended at the time `completed_at`. The record is that of a
    /// completed session of the type that ended, with the length of that
    /// type, begun when the session was started; a session whose start was
    /// not noted has an empty start time.
    pub open spec fn completion(self, today: Date, completed_at: Seq<char>) -> CompletionView {
        CompletionView {
            session: SessionView {
                id: None,
                started_at: match self.session_start_time {
                    Some(text) => text,
                    None => Seq::empty(),
                },
                completed_at: Some(completed_at),
                duration_secs: self.ended_type().duration() as u32,
                session_type: self.ended_type(),
                completed: true,
            },
            profile: self.profile_after(today),
            xp_earned: if self.ended_type() == SessionType::Focus {
                Some(xp_award(self.profile_after(today).current_streak as nat) as u32)
            } else {
                None
            },
            level_up: self.level_up_after(today),
        }
    }

    /// The state with the timer one tick on.
    pub open spec fn with_timer_ticked(self) -> OrchestratorView {
        OrchestratorView { timer: self.timer.ticked(), ..self }
    }

    /// Whether the numbers have room for the next tick and for the session
    /// that it may end.
    pub open spec fn can_tick(self, today: Date) -> bool {
        &&& self.timer.can_tick()
        &&& self.timer.finishes_on_tick() ==> self.with_timer_ticked().can_complete(today)
    }

    /// The state after `Tick`: the timer moves on, and a session that ends
    /// with this tick is dealt with.
    pub open spec fn ticked(self, today: Date) -> OrchestratorView {
        if self.timer.finishes_on_tick() {
            self.with_timer_ticked().completed(today)
        } else {
            self.with_timer_ticked()
        }
    }

    /// Whether the numbers have room for `command`.
    pub open spec fn can_update(self, command: Command, today: Date) -> bool {
        command == Command::Tick ==> self.can_tick(today)
    }

    /// The state after `command`, given at the time `timestamp` of the day
    /// `today`.
    pub open spec fn updated(
        self,
        command: Command,
        today: Date,
        timestamp: Seq<char>,
    ) -> OrchestratorView {
        match command {
            Command::Tick => self.ticked(today),
            Command::Start => self.started(timestamp),
            Command::PauseResume => self.pause_resumed(),
            Command::Skip => self.skipped(),
            Command::DismissLevelUp => self.level_up_dismissed(),
        }
    }

    /// What `Tick` hands back: the completion of the session that ends
    /// with this tick, and nothing on any other tick.
    pub open spec fn tick_result(self, today: Date, timestamp: Seq<char>) -> Option<
        CompletionView,
    > {
        if self.timer.finishes_on_tick() {
            Some(self.with_timer_ticked().completion(today, timestamp))
        } else {
            None
        }
    }

    /// What `command` hands back: only a tick hands anything back.
    pub open spec fn update_result(
        self,
        command: Command,
        today: Date,
        timestamp: Seq<char>,
    ) -> Option<CompletionView> {
        match command {
            Command::Tick => self.tick_result(today, timestamp),
            _ => None,
        }
    }
}

/// The characters of a completion that may be absent.
pub open spec fn completion_view(completion: Option<Completion>) -> Option<CompletionView> {
    match completion {
        Some(c) => Some(c@),
        None => None,
    }
}

impl Orchestrator {
    /// The orchestrator at launch, from what the store gave. Whatever
    /// could not be read counts as a fresh profile and as zero.
    pub fn new(
        profile: Option<UserProfile>,
        today_sessions: Option<u32>,
        totals: Option<(u32, u32)>,
    ) -> (orchestrator: Orchestrator)
        ensures
            orchestrator@ == OrchestratorView::launched(profile, today_sessions, totals),
    {
        let (total_sessions, total_focus_secs): (u32, u32) = match totals {
            Some(t) => t,
            None => (0, 0),
        };
        Orchestrator {
            timer: Timer::new(),
            profile: match profile {
                Some(p) => p,
                None => UserProfile::default(),
            },
            session_start_time: None,
            today_sessions: match today_sessions {
                Some(n) => n,
                None => 0,
            },
            total_sessions,
            total_focus_secs,
            level_up: None,
        }
    }

    /// Takes over statistics that were read again from the store.
    pub fn refresh_stats(
        &mut self,
        today_sessions: Option<u32>,
        totals: Option<(u32, u32)>,
        profile: Option<UserProfile>,
    )
        ensures
            final(self)@ == old(self)@.refreshed(today_sessions, totals, profile),
    {
        self.today_sessions = match today_sessions {
            Some(n) => n,
            None => 0,
        };
        let (total, secs): (u32, u32) = match totals {
            Some(t) => t,
            None => (0, 0),
        };
        self.total_sessions = total;
        self.total_focus_secs = secs;
        match profile {
            Some(p) => {
                self.profile = p;
            },
            None => {},
        }
    }

    /// Starts the session that is due: after a finished session the one
    /// that should follow it, otherwise a focus session.
    pub fn start(&mut self, timestamp: String)
        ensures
            final(self)@ == old(self)@.started(timestamp@),
    {
        let session_type = if self.timer.is_finished() {
            self.timer.next_session_type()
        } else {
            SessionType::Focus
        };
        self.timer.start(session_type);
        self.session_start_time = Some(timestamp);
    }

    /// Halts the running session, or lets the halted one run again.
    pub fn pause_resume(&mut self)
        ensures
            final(self)@ == old(self)@.pause_resumed(),
    {
        if self.timer.is_running() {
            self.timer.pause();
        } else if self.timer.is_paused() {
            self.timer.resume();
        }
    }

    /// Gives up the session under way; it leaves no record.
    pub fn skip(&mut self)
        ensures
            final(self)@ == old(self)@.skipped(),
    {
        if self.timer.is_running() || self.timer.is_paused() {
            self.timer.reset();
            self.session_start_time = None;
        }
    }

    /// Takes the level-up notice off show.
    pub fn dismiss_level_up(&mut self)
        ensures
            final(self)@ == old(self)@.level_up_dismissed(),
    {
        self.level_up = None;
    }

    /// Whether the profile and the counts have room for one more focus
    /// session completed today.
    fn has_room_for_focus(&self, today: Date) -> (room: bool)
        ensures
            room == {
                &&& self.profile.can_record(today)
                &&& self.today_sessions < u32::MAX
                &&& self.total_sessions < u32::MAX
                &&& self.total_focus_secs + 1500 <= u32::MAX
            },
    {
        has_room_to_record(&self.profile, today) && self.today_sessions < u32::MAX
            && self.total_sessions < u32::MAX && self.total_focus_secs <= u32::MAX
            - FOCUS_DURATION_SECS
    }

    /// Whether `on_session_complete` may be called: should the session that
    /// has ended be a focus session, the profile and the counts have room
    /// for it.
    pub fn has_room_to_complete(&self, today: Date) -> (room: bool)
        ensures
            room == self@.can_complete(today),
    {
        match self.timer.current_session_type() {
            Some(SessionType::ShortBreak) | Some(SessionType::LongBreak) => true,
            _ => self.has_room_for_focus(today),
        }
    }

    /// Whether `update` may be called with `command`: a tick needs room in
    /// the timer's count and, where it ends a focus session, room for that
    /// session; every other command may always be given.
    pub fn has_room_for(&self, command: Command, today: Date) -> (room: bool)
        ensures
            room == self@.can_update(command, today),
            command != Command::Tick ==> room,
    {
        match command {
            Command::Tick => match self.timer.state {
                TimerState::Running { remaining_secs, session_type } => {
                    if remaining_secs <= 1 && session_type == SessionType::Focus {
                        self.timer.has_room_to_tick() && self.has_room_for_focus(today)
                    } else {
                        true
                    }
                },
                _ => true,
            },
            _ => true,
        }
    }

    /// Deals with the session that has ended, at the time `completed_at` of
    /// the day `today`. A focus session is recorded in the profile and in
    /// the counts, and a level that it lifts is put on show; a break changes
    /// neither. Either way the start time is cleared and the caller gets the
    /// record and the profile to store.
    pub fn on_session_complete(&mut self, today: Date, completed_at: String) -> (completion:
        Completion)
        requires
            old(self)@.can_complete(today),
        ensures
            final(self)@ == old(self)@.completed(today),
            completion@ == old(self)@.completion(today, completed_at@),
            completion.profile == final(self).profile,
            old(self)@.ended_type() != SessionType::Focus ==> {
                &&& final(self).profile == old(self).profile
                &&& completion.xp_earned is None
                &&& completion.level_up is None
            },
            old(self)@.ended_type() == SessionType::Focus ==> {
                &&& final(self).profile == old(self).profile.after_focus_session(today)
                &&& completion.xp_earned == Some(
                    (final(self).profile.total_xp - old(self).profile.total_xp) as u32,
                )
            },
            completion.level_up is Some <==> final(self).profile.level > old(self).profile.level,
            completion.level_up matches Some(reached) ==> {
                &&& reached.level == final(self).profile.level
                &&& reached.stage == stage_of(reached.level as nat)
                &&& final(self).level_up == Some(reached.level)
            },
            completion.level_up is None ==> final(self).level_up == old(self).level_up,
    {
        let session_type = match self.timer.current_session_type() {
            Some(t) => t,
            None => SessionType::Focus,
        };
        let mut xp_earned: Option<u32> = None;
        let mut level_up: Option<LevelUp> = None;
        let old_level: u32 = self.profile.level;

        if session_type == SessionType::Focus {
            let xp: u32 = record_focus_session(&mut self.profile, today);
            xp_earned = Some(xp);

            if self.profile.level > old_level {
                let new_stage = ferris_stage(self.profile.level);
                level_up = Some(LevelUp { level: self.profile.level, stage: new_stage });
                self.level_up = Some(self.profile.level);
            }
            self.today_sessions = self.today_sessions + 1;
            self.total_sessions = self.total_sessions + 1;
            self.total_focus_secs = self.total_focus_secs + FOCUS_DURATION_SECS;
        }
        let started_at: String = match self.session_start_time.take() {
            Some(text) => text,
            None => String::new(),
        };
        let session = Session {
            id: None,
            started_at,
            completed_at: Some(completed_at),
            duration_secs: session_type.duration_secs(),
            session_type,
            completed: true,
        };
        Completion { session, profile: self.profile, xp_earned, level_up }
    }

    /// Lets one second pass, at the time `timestamp` of the day `today`.
    /// On the tick that ends a session the session is dealt with, and the
    /// caller gets its completion; on every other tick it gets `None`.
    pub fn tick(&mut self, today: Date, timestamp: String) -> (completion: Option<Completion>)
        requires
            old(self)@.can_tick(today),
        ensures
            final(self)@ == old(self)@.ticked(today),
            completion is Some <==> old(self).timer.finishes_on_tick(),
            completion_view(completion) == old(self)@.tick_result(today, timestamp@),
    {
        let finished = self.timer.tick();
        if finished {
            Some(self.on_session_complete(today, timestamp))
        } else {
            None
        }
    }

    /// Carries out `command`, given at the time `timestamp` of the day
    /// `today`.
    pub fn update(&mut self, command: Command, today: Date, timestamp: String) -> (completion:
        Option<Completion>)
        requires
            old(self)@.can_update(command, today),
        ensures
            final(self)@ == old(self)@.updated(command, today, timestamp@),
            completion_view(completion) == old(self)@.update_result(command, today, timestamp@),
            completion is Some <==> command == Command::Tick && old(
                self,
            ).timer.finishes_on_tick(),
    {
        match command {
            Command::Tick => self.tick(today, timestamp),
            Command::Start => {
                self.start(timestamp);
                None
            },
            Command::PauseResume => {
                self.pause_resume();
                None
            },
            Command::Skip => {
                self.skip();
                None
            },
            Command::DismissLevelUp => {
                self.dismiss_level_up();
                None
            },
        }
    }
}

} // verus!
