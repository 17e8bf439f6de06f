//! The stopwatch of one interval: snapshot on resume, accumulate on pause.

use vstd::prelude::*;

verus! {

/// The two kinds of interval.
#[derive(Clone, Copy, Debug, PartialEq, Eq, Structural)]
pub enum TimerType {
    Work,
    Break,
}

/// What happens when an interval completes: the next one starts by itself,
/// or the timer halts until the user starts one.
#[derive(Clone, Copy, Debug, PartialEq, Eq, Structural)]
pub enum TimerMode {
    Auto,
    Manual,
}

impl TimerType {
    /// Break after work, work after break.
    pub open spec fn spec_opposite(self) -> TimerType {
        match self {
            TimerType::Work => TimerType::Break,
            TimerType::Break => TimerType::Work,
        }
    }

    /// The kind of interval that follows this one in a cycle.
    #[verifier::when_used_as_spec(spec_opposite)]
    pub fn opposite(self) -> (next: TimerType)
        ensures
            next == self.spec_opposite(),
    {
        match self {
            TimerType::Work => TimerType::Break,
            TimerType::Break => TimerType::Work,
        }
    }
}

/// One interval and how much of it has run. Times are milliseconds.
///
/// `elapsed` is what had accumulated when the interval was last paused (or
/// zero); while the interval runs, `start_time` is the clock reading at which
/// it was last resumed.
#[derive(Clone, Copy, Debug)]
pub struct PomodoroSession {
    pub timer_type: TimerType,
    pub duration: u64,
    pub elapsed: u64,
    pub is_running: bool,
    pub start_time: Option<u64>,
}

/// `a + b`, held at the largest `u64`.
pub open spec fn saturating_sum(a: u64, b: u64) -> u64 {
    if a + b > u64::MAX {
        u64::MAX
    } else {
        (a + b) as u64
    }
}

impl PomodoroSession {
    /// A running session has a resume time, a paused one has none.
    pub open spec fn wf(self) -> bool {
        self.is_running == self.start_time.is_some()
    }

    /// Time run since the last resume as read at `now`; zero when paused, and
    /// zero when the clock reads earlier than the resume time.
    pub open spec fn since_resume(self, now: u64) -> u64 {
        match self.start_time {
            Some(t) => if self.is_running && now >= t {
                (now - t) as u64
            } else {
                0
            },
            None => 0,
        }
    }

    /// Accumulated time plus the time of the current run.
    pub open spec fn effective_elapsed(self, now: u64) -> u64 {
        saturating_sum(self.elapsed, self.since_resume(now))
    }

    /// What is left of the interval at `now`, never below zero.
    pub open spec fn spec_remaining(self, now: u64) -> u64 {
        if self.duration > self.effective_elapsed(now) {
            (self.duration - self.effective_elapsed(now)) as u64
        } else {
            0
        }
    }

    /// The interval has run its full duration at `now`.
    pub open spec fn finished(self, now: u64) -> bool {
        self.effective_elapsed(now) >= self.duration
    }

    /// A fresh interval of the given kind, running since `now`.
    pub open spec fn started(timer_type: TimerType, duration: u64, now: u64) -> PomodoroSession {
        PomodoroSession {
            timer_type,
            duration,
            elapsed: 0,
            is_running: true,
            start_time: Some(now),
        }
    }

    /// The session with its current run folded into `elapsed` and stopped.
    pub open spec fn halted(self, now: u64) -> PomodoroSession {
        PomodoroSession {
            elapsed: self.effective_elapsed(now),
            is_running: false,
            start_time: None,
            ..self
        }
    }

    /// The session after `pause` at `now`.
    pub open spec fn after_pause(self, now: u64) -> PomodoroSession {
        if self.is_running {
            self.halted(now)
        } else {
            self
        }
    }

    /// The session after `resume` at `now`.
    pub open spec fn after_resume(self, now: u64) -> PomodoroSession {
        if self.is_running {
            self
        } else {
            PomodoroSession { is_running: true, start_time: Some(now), ..self }
        }
    }

    /// The session after `toggle` at `now`.
    pub open spec fn after_toggle(self, now: u64) -> PomodoroSession {
        if self.is_running {
            self.after_pause(now)
        } else {
            self.after_resume(now)
        }
    }

    /// A tick at `now` completes the interval: it is running and has run its
    /// full duration.
    pub open spec fn completes(self, now: u64) -> bool {
        self.is_running && self.finished(now)
    }

    /// The session after a tick at `now`. `next_duration` is the length of
    /// the interval of the opposite kind, used in automatic mode only.
    pub open spec fn after_tick(
        self,
        now: u64,
        mode: TimerMode,
        next_duration: u64,
    ) -> PomodoroSession {
        if !self.completes(now) {
            self
        } else {
            match mode {
                TimerMode::Auto => Self::started(self.timer_type.spec_opposite(), next_duration, now),
                TimerMode::Manual => self.halted(now),
            }
        }
    }

    /// A session that has never been started: paused at zero.
    pub fn new(timer_type: TimerType, duration: u64) -> (session: PomodoroSession)
        ensures
            session == (PomodoroSession {
                timer_type,
                duration,
                elapsed: 0,
                is_running: false,
                start_time: None,
            }),
            session.wf(),
    {
        PomodoroSession { timer_type, duration, elapsed: 0, is_running: false, start_time: None }
    }

    /// Begins a new interval at `now`, whatever the state was.
    pub fn start(&mut self, timer_type: TimerType, duration: u64, now: u64)
        ensures
            *final(self) == Self::started(timer_type, duration, now),
            final(self).wf(),
    {
        *self = PomodoroSession {
            timer_type,
            duration,
            elapsed: 0,
            is_running: true,
            start_time: Some(now),
        };
    }

    /// Accumulated plus current run time at `now`.
    pub fn elapsed_at(&self, now: u64) -> (total: u64)
        ensures
            total == self.effective_elapsed(now),
    {
        let run: u64 = match self.start_time {
            Some(t) => if self.is_running && now >= t {
                now - t
            } else {
                0
            },
            None => 0,
        };
        if run > u64::MAX - self.elapsed {
            u64::MAX
        } else {
            self.elapsed + run
        }
    }

    /// Stops a running session, keeping the time it has run. A paused one is
    /// left as it is.
    pub fn pause(&mut self, now: u64)
        ensures
            *final(self) == old(self).after_pause(now),
            old(self).wf() ==> final(self).wf(),
            !final(self).is_running,
    {
        if self.is_running {
            self.elapsed = self.elapsed_at(now);
            self.is_running = false;
            self.start_time = None;
        }
    }

    /// Sets a paused session running from `now`. A running one is left as it
    /// is.
    pub fn resume(&mut self, now: u64)
        ensures
            *final(self) == old(self).after_resume(now),
            old(self).wf() ==> final(self).wf(),
            final(self).is_running,
    {
        if !self.is_running {
            self.is_running = true;
            self.start_time = Some(now);
        }
    }

    /// Pauses a running session, resumes a paused one.
    pub fn toggle(&mut self, now: u64)
        ensures
            *final(self) == old(self).after_toggle(now),
            old(self).wf() ==> final(self).wf(),
            final(self).is_running == !old(self).is_running,
    {
        if self.is_running {
            self.pause(now);
        } else {
            self.resume(now);
        }
    }

    /// Time left at `now`.
    pub fn remaining(&self, now: u64) -> (left: u64)
        ensures
            left == self.spec_remaining(now),
            left <= self.duration,
    {
        let total = self.elapsed_at(now);
        if self.duration > total {
            self.duration - total
        } else {
            0
        }
    }

    /// Whether the interval has run its full duration at `now`.
    pub fn is_finished(&self, now: u64) -> (done: bool)
        ensures
            done == self.finished(now),
            done == (self.spec_remaining(now) == 0),
    {
        self.elapsed_at(now) >= self.duration
    }

    /// Whether the session is running.
    pub fn is_running(&self) -> (running: bool)
        ensures
            running == self.is_running,
    {
        self.is_running
    }

    /// One poll of the stopwatch at `now`. A running interval that has run
    /// its full duration completes: the kind that completed is returned, and
    /// the session becomes the next interval (automatic mode) or halts with
    /// nothing remaining (manual mode). Otherwise nothing changes.
    pub fn tick(
        &mut self,
        now: u64,
        mode: TimerMode,
        next_duration: u64,
    ) -> (completed: Option<TimerType>)
        ensures
            *final(self) == old(self).after_tick(now, mode, next_duration),
            completed == if old(self).completes(now) {
                Some(old(self).timer_type)
            } else {
                None
            },
            old(self).wf() ==> final(self).wf(),
    {
        if self.is_running && self.is_finished(now) {
            let kind = self.timer_type;
            match mode {
                TimerMode::Auto => {
                    self.start(kind.opposite(), next_duration, now);
                },
                TimerMode::Manual => {
                    self.elapsed = self.elapsed_at(now);
                    self.is_running = false;
                    self.start_time = None;
                },
            }
            Some(kind)
        } else {
            None
        }
    }
}

/// One of the user's controls over a session, as applied at a clock reading.
#[derive(Clone, Copy, Debug)]
pub enum Control {
    /// Begin a new interval of the given kind and length.
    Start(TimerType, u64),
    Pause,
    Resume,
    Toggle,
}

/// The session after one control at the clock reading `at`.
pub open spec fn after_control(
    session: PomodoroSession,
    control: Control,
    at: u64,
) -> PomodoroSession {
    match control {
        Control::Start(timer_type, duration) => PomodoroSession::started(timer_type, duration, at),
        Control::Pause => session.after_pause(at),
        Control::Resume => session.after_resume(at),
        Control::Toggle => session.after_toggle(at),
    }
}

impl PomodoroSession {
    /// Applies one control at the clock reading `now`.
    pub fn apply(&mut self, control: Control, now: u64)
        ensures
            *final(self) == after_control(*old(self), control, now),
            old(self).wf() ==> final(self).wf(),
    {
        match control {
            Control::Start(timer_type, duration) => self.start(timer_type, duration, now),
            Control::Pause => self.pause(now),
            Control::Resume => self.resume(now),
            Control::Toggle => self.toggle(now),
        }
    }
}

/// The session after the given controls, each applied at the clock reading
/// paired with it, first to last.
pub open spec fn after_controls(
    session: PomodoroSession,
    steps: Seq<(Control, u64)>,
) -> PomodoroSession
    decreases steps.len(),
{
    if steps.len() == 0 {
        session
    } else {
        after_control(after_controls(session, steps.drop_last()), steps.last().0, steps.last().1)
    }
}

/// The clock readings never go back.
pub open spec fn clock_advances(steps: Seq<(Control, u64)>) -> bool {
    forall|i: int, j: int|
        0 <= i <= j < steps.len() ==> (#[trigger] steps[i]).1 <= (#[trigger] steps[j]).1
}

/// Pausing twice is pausing once: the second pause, at whatever time, changes
/// nothing.
pub proof fn lemma_pause_idempotent(session: PomodoroSession, first: u64, second: u64)
    ensures
        session.after_pause(first).after_pause(second) == session.after_pause(first),
{
}

/// Resuming twice is resuming once: the second resume, at whatever time,
/// changes nothing.
pub proof fn lemma_resume_idempotent(session: PomodoroSession, first: u64, second: u64)
    ensures
        session.after_resume(first).after_resume(second) == session.after_resume(first),
{
}

/// The effective elapsed time of a session never goes down as the clock
/// advances: it grows with the clock while the session runs.
pub proof fn lemma_elapsed_monotonic(session: PomodoroSession, earlier: u64, later: u64)
    requires
        earlier <= later,
    ensures
        session.effective_elapsed(earlier) <= session.effective_elapsed(later),
{
}

/// A fresh interval starts at zero and then runs with the clock.
pub proof fn lemma_start_resets(timer_type: TimerType, duration: u64, now: u64, later: u64)
    requires
        now <= later,
    ensures
        PomodoroSession::started(timer_type, duration, now).wf(),
        PomodoroSession::started(timer_type, duration, now).effective_elapsed(now) == 0,
        PomodoroSession::started(timer_type, duration, now).effective_elapsed(later) == later - now,
        PomodoroSession::started(timer_type, duration, now).spec_remaining(now) == duration,
{
}

/// What remains and what has run make up the interval: the remaining time is
/// the duration less the effective elapsed time, and zero once that has
/// reached the duration.
pub proof fn lemma_remaining_complements_elapsed(session: PomodoroSession, now: u64)
    ensures
        session.spec_remaining(now) <= session.duration,
        !session.finished(now) ==> session.spec_remaining(now) + session.effective_elapsed(now)
            == session.duration,
        session.finished(now) <==> session.spec_remaining(now) == 0,
{
}

/// While a session is paused, its effective elapsed time is the accumulated
/// time at every clock reading.
pub proof fn lemma_elapsed_frozen_while_paused(session: PomodoroSession, now: u64)
    requires
        !session.is_running,
    ensures
        session.effective_elapsed(now) == session.elapsed,
{
}

/// Pausing and resuming lose no time: at the instant of the call the
/// effective elapsed time is what it was just before.
pub proof fn lemma_controls_conserve_elapsed(session: PomodoroSession, now: u64)
    requires
        session.wf(),
    ensures
        session.after_pause(now).effective_elapsed(now) == session.effective_elapsed(now),
        session.after_resume(now).effective_elapsed(now) == session.effective_elapsed(now),
        session.after_toggle(now).effective_elapsed(now) == session.effective_elapsed(now),
{
}

/// Whatever the controls, a well-formed session stays well formed.
pub proof fn lemma_controls_keep_wf(session: PomodoroSession, steps: Seq<(Control, u64)>)
    requires
        session.wf(),
    ensures
        after_controls(session, steps).wf(),
    decreases steps.len(),
{
    if steps.len() > 0 {
        lemma_controls_keep_wf(session, steps.drop_last());
    }
}

/// Over any run of starts, pauses, resumes and toggles on an advancing clock,
/// the effective elapsed time never goes down from one call to a later one
/// unless an interval is started in between: read right after call `i` and
/// right after a later call `j`, with no start after `i` up to `j`, the
/// second reading is no less than the first.
pub proof fn lemma_elapsed_never_decreases(
    session: PomodoroSession,
    steps: Seq<(Control, u64)>,
    i: int,
    j: int,
)
    requires
        session.wf(),
        clock_advances(steps),
        0 <= i <= j < steps.len(),
        forall|k: int| i < k <= j ==> !((#[trigger] steps[k]).0 is Start),
    ensures
        after_controls(session, steps.take(i + 1)).effective_elapsed(steps[i].1) <= after_controls(
            session,
            steps.take(j + 1),
        ).effective_elapsed(steps[j].1),
    decreases j - i,
{
    if i < j {
        lemma_elapsed_never_decreases(session, steps, i, j - 1);
        let before = after_controls(session, steps.take(j));
        lemma_controls_keep_wf(session, steps.take(j));
        assert(steps.take(j + 1).drop_last() =~= steps.take(j));
        assert(steps.take(j + 1).last() == steps[j]);
        assert(!(steps[j].0 is Start));
        assert(steps[j - 1].1 <= steps[j].1);
        lemma_elapsed_monotonic(before, steps[j - 1].1, steps[j].1);
        lemma_controls_conserve_elapsed(before, steps[j].1);
    }
}

/// A completion fires once: right after a tick that completed an interval of
/// non-zero length, or any interval in manual mode, a second tick at the same
/// clock reading changes nothing and reports nothing.
pub proof fn lemma_completion_fires_once(
    session: PomodoroSession,
    now: u64,
    mode: TimerMode,
    next_duration: u64,
)
    requires
        session.completes(now),
        mode == TimerMode::Manual || next_duration > 0,
    ensures
        !session.after_tick(now, mode, next_duration).completes(now),
        session.after_tick(now, mode, next_duration).after_tick(now, mode, next_duration)
            == session.after_tick(now, mode, next_duration),
{
}

} // verus!
