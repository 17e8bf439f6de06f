//! The pomodoro timer: the current interval, the cycle mode, the custom
//! lengths, the dialogs, and what each key press does to them.

use crate::audio::{completion_melody, render_all, AudioChannel, AudioManager, Timbre};
use crate::custom_input::{
    is_digit, parse_custom, parse_custom_chars, to_chars, trim, trimmed, CustomInputError,
};
use crate::session::{PomodoroSession, TimerMode, TimerType};
use crate::text::{clock_text, decimal_text, push_decimal, push_two_digits};
use vstd::prelude::*;
use vstd::string::*;

verus! {

/// Length of a work interval unless the user sets one: 25 minutes.
pub const DEFAULT_WORK_DURATION: u64 = 1_500_000;

/// Length of a break unless the user sets one: 5 minutes.
pub const DEFAULT_BREAK_DURATION: u64 = 300_000;

/// Milliseconds in a minute.
pub const MILLIS_PER_MINUTE: u64 = 60_000;

/// The keys that the timer tells apart.
#[derive(Clone, Copy, Debug, PartialEq, Eq)]
pub enum KeyCode {
    Esc,
    Enter,
    Backspace,
    Char(char),
    Other,
}

/// The modifier state of a key press: none held, control alone, or anything
/// else.
#[derive(Clone, Copy, Debug, PartialEq, Eq)]
pub enum KeyModifiers {
    Plain,
    Control,
    Other,
}

/// One key press.
#[derive(Clone, Copy, Debug, PartialEq, Eq)]
pub struct KeyEvent {
    pub code: KeyCode,
    pub modifiers: KeyModifiers,
}

/// What the polling loop does after a key press has been handled.
#[derive(Clone, Copy, Debug, PartialEq, Eq)]
pub enum KeyOutcome {
    /// Leave the loop.
    Quit,
    /// An overlay took the key: go straight to the next poll.
    Skip,
    /// Begin the animation anew, then finish the poll cycle.
    RestartAnimation,
    /// Finish the poll cycle.
    Proceed,
}

/// The timer and the state of its dialogs.
#[derive(Debug)]
pub struct PomodoroTimer {
    pub current_session: PomodoroSession,
    pub mode: TimerMode,
    pub completed_sessions: u32,
    pub show_controls_popup: bool,
    pub show_custom_input: bool,
    pub custom_input: String,
    pub show_mario_animation: bool,
    pub audio_manager: AudioManager,
    pub custom_work_duration: u64,
    pub custom_break_duration: u64,
}

/// The timer as a plain value.
pub struct TimerState {
    pub current_session: PomodoroSession,
    pub mode: TimerMode,
    pub completed_sessions: u32,
    pub show_controls_popup: bool,
    pub show_custom_input: bool,
    pub custom_input: Seq<char>,
    pub show_mario_animation: bool,
    pub custom_work_duration: u64,
    pub custom_break_duration: u64,
}

impl View for PomodoroTimer {
    type V = TimerState;

    open spec fn view(&self) -> TimerState {
        TimerState {
            current_session: self.current_session,
            mode: self.mode,
            completed_sessions: self.completed_sessions,
            show_controls_popup: self.show_controls_popup,
            show_custom_input: self.show_custom_input,
            custom_input: self.custom_input@,
            show_mario_animation: self.show_mario_animation,
            custom_work_duration: self.custom_work_duration,
            custom_break_duration: self.custom_break_duration,
        }
    }
}

/// The other cycle mode.
pub open spec fn other_mode(mode: TimerMode) -> TimerMode {
    match mode {
        TimerMode::Manual => TimerMode::Auto,
        TimerMode::Auto => TimerMode::Manual,
    }
}

/// The name of an interval kind in the window title.
pub open spec fn session_label(timer_type: TimerType) -> Seq<char> {
    match timer_type {
        TimerType::Work => "Work"@,
        TimerType::Break => "Break"@,
    }
}

/// The name of a cycle mode in the status line.
pub open spec fn mode_label(mode: TimerMode) -> Seq<char> {
    match mode {
        TimerMode::Manual => "Manual"@,
        TimerMode::Auto => "Auto"@,
    }
}

/// What the user is doing during an interval kind, in the status line.
pub open spec fn status_label(timer_type: TimerType) -> Seq<char> {
    match timer_type {
        TimerType::Work => "Working"@,
        TimerType::Break => "On Break"@,
    }
}

impl TimerState {
    /// The timer at program start: a paused 25-minute work interval,
    /// automatic mode, nothing completed, no dialog open.
    pub open spec fn initial() -> TimerState {
        TimerState {
            current_session: PomodoroSession {
                timer_type: TimerType::Work,
                duration: DEFAULT_WORK_DURATION,
                elapsed: 0,
                is_running: false,
                start_time: None,
            },
            mode: TimerMode::Auto,
            completed_sessions: 0,
            show_controls_popup: false,
            show_custom_input: false,
            custom_input: Seq::empty(),
            show_mario_animation: false,
            custom_work_duration: DEFAULT_WORK_DURATION,
            custom_break_duration: DEFAULT_BREAK_DURATION,
        }
    }

    /// The configured length of an interval of the given kind.
    pub open spec fn duration_for(self, timer_type: TimerType) -> u64 {
        match timer_type {
            TimerType::Work => self.custom_work_duration,
            TimerType::Break => self.custom_break_duration,
        }
    }

    /// The timer with a fresh interval of the given kind and length, running
    /// since `now`.
    pub open spec fn start_timer(
        self,
        timer_type: TimerType,
        duration: u64,
        now: u64,
    ) -> TimerState {
        TimerState { current_session: PomodoroSession::started(timer_type, duration, now), ..self }
    }

    /// The timer with a fresh work interval of the configured length.
    pub open spec fn start_work_session(self, now: u64) -> TimerState {
        self.start_timer(TimerType::Work, self.custom_work_duration, now)
    }

    /// The timer with a fresh break of the configured length.
    pub open spec fn start_break_session(self, now: u64) -> TimerState {
        self.start_timer(TimerType::Break, self.custom_break_duration, now)
    }

    /// The given minutes become the custom lengths (five minutes of break if
    /// none are given) and a work interval starts.
    pub open spec fn start_custom_session(
        self,
        work_mins: u32,
        break_mins: Option<u32>,
        now: u64,
    ) -> TimerState {
        TimerState {
            custom_work_duration: (work_mins * MILLIS_PER_MINUTE) as u64,
            custom_break_duration: match break_mins {
                Some(mins) => (mins * MILLIS_PER_MINUTE) as u64,
                None => DEFAULT_BREAK_DURATION,
            },
            ..self
        }.start_work_session(now)
    }

    /// The timer with the custom dialog open and its text empty.
    pub open spec fn show_custom_input_dialog(self) -> TimerState {
        TimerState { show_custom_input: true, custom_input: Seq::empty(), ..self }
    }

    /// The timer with the custom dialog closed and its text empty.
    pub open spec fn hide_custom_input_dialog(self) -> TimerState {
        TimerState { show_custom_input: false, custom_input: Seq::empty(), ..self }
    }

    /// The dialog text is confirmed. An empty text closes the dialog, a
    /// valid one closes it and starts the custom session, an invalid one
    /// leaves everything as it is.
    pub open spec fn parse_and_start_custom_timer(self, now: u64) -> TimerState {
        let input = trimmed(self.custom_input);
        if input.len() == 0 {
            self.hide_custom_input_dialog()
        } else {
            match parse_custom(input) {
                Ok((work_mins, break_mins)) => self.hide_custom_input_dialog().start_custom_session(
                    work_mins,
                    break_mins,
                    now,
                ),
                Err(_) => self,
            }
        }
    }

    /// The timer with its interval paused if it ran, resumed if it did not.
    pub open spec fn toggle_timer(self, now: u64) -> TimerState {
        TimerState { current_session: self.current_session.after_toggle(now), ..self }
    }

    /// The timer with its interval paused.
    pub open spec fn pause_timer(self, now: u64) -> TimerState {
        TimerState { current_session: self.current_session.after_pause(now), ..self }
    }

    /// The timer with its interval running.
    pub open spec fn resume_timer(self, now: u64) -> TimerState {
        TimerState { current_session: self.current_session.after_resume(now), ..self }
    }

    /// The timer in the other cycle mode.
    pub open spec fn toggle_mode(self) -> TimerState {
        TimerState { mode: other_mode(self.mode), ..self }
    }

    /// The completed-interval count after one more, held at the largest
    /// `u32`.
    pub open spec fn next_count(self) -> u32 {
        if self.completed_sessions < u32::MAX {
            (self.completed_sessions + 1) as u32
        } else {
            self.completed_sessions
        }
    }

    /// The current interval is over: it is counted, a completed work
    /// interval brings up the animation, and the next interval starts
    /// (automatic mode) or the timer halts (manual mode).
    pub open spec fn complete_session(self, now: u64) -> TimerState {
        let kind = self.current_session.timer_type;
        TimerState {
            completed_sessions: self.next_count(),
            show_mario_animation: kind == TimerType::Work || self.show_mario_animation,
            current_session: match self.mode {
                TimerMode::Auto => PomodoroSession::started(
                    kind.spec_opposite(),
                    self.duration_for(kind.spec_opposite()),
                    now,
                ),
                TimerMode::Manual => self.current_session.halted(now),
            },
            ..self
        }
    }

    /// The timer after a tick at `now`.
    pub open spec fn tick(self, now: u64) -> TimerState {
        if self.current_session.completes(now) {
            self.complete_session(now)
        } else {
            self
        }
    }

    /// The timer after the end of a poll cycle at `now`: a finished
    /// animation is taken down, then the timer ticks.
    pub open spec fn end_cycle(self, animation_finished: bool, now: u64) -> TimerState {
        TimerState {
            show_mario_animation: self.show_mario_animation && !animation_finished,
            ..self
        }.tick(now)
    }

    /// The timer after a key press at `now`. While the animation shows, a
    /// plain escape, enter or space takes it down and every other key is
    /// swallowed. While the custom dialog is open, plain keys edit, confirm
    /// or close it. Otherwise plain keys drive the timer.
    pub open spec fn after_key(self, key: KeyEvent, now: u64) -> TimerState {
        let plain = key.modifiers == KeyModifiers::Plain;
        if self.show_mario_animation {
            if plain && (key.code == KeyCode::Esc || key.code == KeyCode::Enter || key.code
                == KeyCode::Char(' ')) {
                TimerState { show_mario_animation: false, ..self }
            } else {
                self
            }
        } else if self.show_custom_input {
            if !plain {
                self
            } else {
                match key.code {
                    KeyCode::Enter => self.parse_and_start_custom_timer(now),
                    KeyCode::Backspace => TimerState {
                        custom_input: if self.custom_input.len() > 0 {
                            self.custom_input.drop_last()
                        } else {
                            self.custom_input
                        },
                        ..self
                    },
                    KeyCode::Char(c) => if c == 'x' {
                        self.hide_custom_input_dialog()
                    } else if is_digit(c) || c == ',' {
                        TimerState { custom_input: self.custom_input.push(c), ..self }
                    } else {
                        self
                    },
                    _ => self,
                }
            }
        } else if !plain {
            self
        } else {
            match key.code {
                KeyCode::Enter => self.toggle_timer(now),
                KeyCode::Char(c) => if c == 'w' {
                    self.start_work_session(now)
                } else if c == 'b' {
                    self.start_break_session(now)
                } else if c == 'c' {
                    self.show_custom_input_dialog()
                } else if c == ' ' {
                    self.toggle_timer(now)
                } else if c == 't' {
                    self.toggle_mode()
                } else if c == 'x' {
                    TimerState { show_controls_popup: !self.show_controls_popup, ..self }
                } else if c == 'm' {
                    TimerState { show_mario_animation: true, ..self }
                } else {
                    self
                },
                _ => self,
            }
        }
    }

    /// What the polling loop does after a key press: a key that an overlay
    /// took skips the rest of the cycle; plain escape and control-c quit;
    /// plain `m` restarts the animation.
    pub open spec fn key_outcome(self, key: KeyEvent) -> KeyOutcome {
        if self.show_mario_animation || self.show_custom_input {
            KeyOutcome::Skip
        } else if key.modifiers == KeyModifiers::Plain && key.code == KeyCode::Esc {
            KeyOutcome::Quit
        } else if key.modifiers == KeyModifiers::Control && key.code == KeyCode::Char('c') {
            KeyOutcome::Quit
        } else if key.modifiers == KeyModifiers::Plain && key.code == KeyCode::Char('m') {
            KeyOutcome::RestartAnimation
        } else {
            KeyOutcome::Proceed
        }
    }

    /// The status line: mode, activity and the count of completed intervals.
    pub open spec fn status_line(self) -> Seq<char> {
        "  Mode: "@ + mode_label(self.mode) + " | Status: "@ + status_label(
            self.current_session.timer_type,
        ) + " | Done: "@ + decimal_text(self.completed_sessions as nat) + " | "@
    }

    /// The window title at `now`.
    pub open spec fn window_title(self, now: u64) -> Seq<char> {
        "CYBER TOMATO - "@ + session_label(self.current_session.timer_type) + " "@ + clock_text(
            self.current_session.spec_remaining(now),
        )
    }
}

/// Keys never touch the count of completed intervals, and neither a key nor
/// the end of a poll cycle ever lowers it; the end of a cycle raises it by
/// one, short of the largest `u32`, exactly when the interval completes.
pub proof fn lemma_completed_count_only_grows(
    state: TimerState,
    key: KeyEvent,
    animation_finished: bool,
    now: u64,
)
    ensures
        state.after_key(key, now).completed_sessions == state.completed_sessions,
        state.end_cycle(animation_finished, now).completed_sessions >= state.completed_sessions,
        state.end_cycle(animation_finished, now).completed_sessions == if state.current_session
            .completes(now) {
            state.next_count()
        } else {
            state.completed_sessions
        },
{
}

/// While the animation or the dialog is up, no key reaches the interval:
/// only confirming the dialog can start one.
pub proof fn lemma_overlays_shield_the_session(state: TimerState, key: KeyEvent, now: u64)
    requires
        state.show_mario_animation || state.show_custom_input,
        state.show_mario_animation || key.code != KeyCode::Enter,
    ensures
        state.after_key(key, now).current_session == state.current_session,
        state.after_key(key, now).mode == state.mode,
        state.key_outcome(key) == KeyOutcome::Skip,
{
}

impl PomodoroTimer {
    /// The timer at program start.
    pub fn new() -> (timer: PomodoroTimer)
        ensures
            timer@ == TimerState::initial(),
            timer@.current_session.wf(),
    {
        let timer = PomodoroTimer {
            current_session: PomodoroSession::new(TimerType::Work, DEFAULT_WORK_DURATION),
            mode: TimerMode::Auto,
            completed_sessions: 0,
            show_controls_popup: false,
            show_custom_input: false,
            custom_input: String::new(),
            show_mario_animation: false,
            audio_manager: AudioManager {  },
            custom_work_duration: DEFAULT_WORK_DURATION,
            custom_break_duration: DEFAULT_BREAK_DURATION,
        };
        assert(timer@.custom_input =~= Seq::<char>::empty());
        timer
    }

    /// The current interval is well formed.
    pub open spec fn wf(&self) -> bool {
        self.current_session.wf()
    }

    /// Begins an interval of the given kind and length at `now`.
    pub fn start_timer(&mut self, timer_type: TimerType, duration: u64, now: u64)
        ensures
            final(self)@ == old(self)@.start_timer(timer_type, duration, now),
            final(self).wf(),
    {
        self.current_session.start(timer_type, duration, now);
    }

    /// Begins a work interval of the configured length.
    pub fn start_work_session(&mut self, now: u64)
        ensures
            final(self)@ == old(self)@.start_work_session(now),
            final(self).wf(),
    {
        let duration = self.custom_work_duration;
        self.start_timer(TimerType::Work, duration, now);
    }

    /// Begins a break of the configured length.
    pub fn start_break_session(&mut self, now: u64)
        ensures
            final(self)@ == old(self)@.start_break_session(now),
            final(self).wf(),
    {
        let duration = self.custom_break_duration;
        self.start_timer(TimerType::Break, duration, now);
    }

    /// Sets the custom lengths in minutes and begins a work interval.
    pub fn start_custom_session(&mut self, work_mins: u32, break_mins: Option<u32>, now: u64)
        ensures
            final(self)@ == old(self)@.start_custom_session(work_mins, break_mins, now),
            final(self).wf(),
    {
        self.custom_work_duration = (work_mins as u64) * MILLIS_PER_MINUTE;
        if let Some(mins) = break_mins {
            self.custom_break_duration = (mins as u64) * MILLIS_PER_MINUTE;
        } else {
            self.custom_break_duration = DEFAULT_BREAK_DURATION;
        }
        self.start_work_session(now);
    }

    /// Opens the custom dialog with an empty text.
    pub fn show_custom_input_dialog(&mut self)
        ensures
            final(self)@ == old(self)@.show_custom_input_dialog(),
    {
        self.show_custom_input = true;
        self.custom_input = String::new();
    }

    /// Closes the custom dialog and forgets its text.
    pub fn hide_custom_input_dialog(&mut self)
        ensures
            final(self)@ == old(self)@.hide_custom_input_dialog(),
    {
        self.show_custom_input = false;
        self.custom_input = String::new();
    }

    /// Confirms the dialog text.
    pub fn parse_and_start_custom_timer(&mut self, now: u64)
        ensures
            final(self)@ == old(self)@.parse_and_start_custom_timer(now),
            old(self).wf() ==> final(self).wf(),
    {
        let input = trim(&to_chars(self.custom_input.as_str()));
        if input.len() == 0 {
            self.hide_custom_input_dialog();
            return ;
        }
        match parse_custom_chars(&input) {
            Ok((work_mins, break_mins)) => {
                self.hide_custom_input_dialog();
                self.start_custom_session(work_mins, break_mins, now);
            },
            Err(_) => {},
        }
    }

    /// Reads a custom-timer text.
    pub fn parse_custom_input(&self, input: &str) -> (parsed: Result<
        (u32, Option<u32>),
        CustomInputError,
    >)
        ensures
            parsed == parse_custom(input@),
    {
        crate::custom_input::parse_custom_input(input)
    }

    /// Pauses a running timer, resumes a paused one.
    pub fn toggle_timer(&mut self, now: u64)
        ensures
            final(self)@ == old(self)@.toggle_timer(now),
            old(self).wf() ==> final(self).wf(),
    {
        if self.current_session.is_running {
            self.pause_timer(now);
        } else {
            self.resume_timer(now);
        }
    }

    /// Pauses the timer if it runs.
    pub fn pause_timer(&mut self, now: u64)
        ensures
            final(self)@ == old(self)@.pause_timer(now),
            old(self).wf() ==> final(self).wf(),
    {
        self.current_session.pause(now);
    }

    /// Resumes the timer if it is paused.
    pub fn resume_timer(&mut self, now: u64)
        ensures
            final(self)@ == old(self)@.resume_timer(now),
            old(self).wf() ==> final(self).wf(),
    {
        self.current_session.resume(now);
    }

    /// Ends the current interval at `now`: queues its melody on `channel`,
    /// counts it, and moves on as the mode says. Returns the kind that
    /// completed.
    pub fn complete_session(
        &mut self,
        now: u64,
        channel: &mut AudioChannel,
    ) -> (completed: TimerType)
        ensures
            final(self)@ == old(self)@.complete_session(now),
            completed == old(self).current_session.timer_type,
            final(self).wf(),
            final(self).completed_sessions >= old(self).completed_sessions,
            final(channel).enabled == old(channel).enabled,
            final(channel).queue@ == old(channel).queue_after(
                render_all(completion_melody(completed), Timbre::Harmonic),
            ),
    {
        let kind = self.current_session.timer_type;
        if self.completed_sessions < u32::MAX {
            self.completed_sessions += 1;
        }
        self.play_notification(channel);
        if let TimerType::Work = kind {
            self.show_mario_animation = true;
        }
        match self.mode {
            TimerMode::Auto => match kind {
                TimerType::Work => self.start_break_session(now),
                TimerType::Break => self.start_work_session(now),
            },
            TimerMode::Manual => {
                self.current_session.elapsed = self.current_session.elapsed_at(now);
                self.current_session.is_running = false;
                self.current_session.start_time = None;
            },
        }
        kind
    }

    /// Switches between automatic and manual mode.
    pub fn toggle_mode(&mut self)
        ensures
            final(self)@ == old(self)@.toggle_mode(),
    {
        self.mode =
        match self.mode {
            TimerMode::Manual => TimerMode::Auto,
            TimerMode::Auto => TimerMode::Manual,
        };
    }

    /// Elapsed time at `now` and the length of the interval.
    pub fn get_timer_progress(&self, now: u64) -> (progress: (u64, u64))
        ensures
            progress.0 == self.current_session.effective_elapsed(now),
            progress.1 == self.current_session.duration,
    {
        (self.current_session.elapsed_at(now), self.current_session.duration)
    }

    /// Queues the melody for the completion of the current interval.
    pub fn play_notification(&self, channel: &mut AudioChannel)
        ensures
            final(channel).enabled == old(channel).enabled,
            final(channel).queue@ == old(channel).queue_after(
                render_all(completion_melody(self.current_session.timer_type), Timbre::Harmonic),
            ),
    {
        self.audio_manager.play_melody(self.current_session.timer_type, channel);
    }

    /// Whether the interval has run its full length at `now`.
    pub fn is_timer_finished(&self, now: u64) -> (done: bool)
        ensures
            done == self.current_session.finished(now),
    {
        let (elapsed, total) = self.get_timer_progress(now);
        elapsed >= total
    }

    /// Time left in the interval at `now`.
    pub fn remaining(&self, now: u64) -> (left: u64)
        ensures
            left == self.current_session.spec_remaining(now),
    {
        self.current_session.remaining(now)
    }

    /// One poll of the timer at `now`: a running interval that has run its
    /// full length completes, once; the kind that completed is returned.
    pub fn tick(&mut self, now: u64, channel: &mut AudioChannel) -> (completed: Option<TimerType>)
        ensures
            final(self)@ == old(self)@.tick(now),
            completed == if old(self).current_session.completes(now) {
                Some(old(self).current_session.timer_type)
            } else {
                None
            },
            final(self)@.current_session == old(self).current_session.after_tick(
                now,
                old(self).mode,
                old(self)@.duration_for(old(self).current_session.timer_type.spec_opposite()),
            ),
            old(self).wf() ==> final(self).wf(),
            final(channel).enabled == old(channel).enabled,
            final(channel).queue@ == match completed {
                Some(kind) => old(channel).queue_after(
                    render_all(completion_melody(kind), Timbre::Harmonic),
                ),
                None => old(channel).queue@,
            },
    {
        if self.current_session.is_running && self.is_timer_finished(now) {
            Some(self.complete_session(now, channel))
        } else {
            None
        }
    }

    /// The end of a poll cycle at `now`: takes a finished animation down,
    /// then ticks.
    pub fn end_cycle(
        &mut self,
        animation_finished: bool,
        now: u64,
        channel: &mut AudioChannel,
    ) -> (completed: Option<TimerType>)
        ensures
            final(self)@ == old(self)@.end_cycle(animation_finished, now),
            completed == if old(self).current_session.completes(now) {
                Some(old(self).current_session.timer_type)
            } else {
                None
            },
            old(self).wf() ==> final(self).wf(),
            final(channel).enabled == old(channel).enabled,
            final(channel).queue@ == match completed {
                Some(kind) => old(channel).queue_after(
                    render_all(completion_melody(kind), Timbre::Harmonic),
                ),
                None => old(channel).queue@,
            },
    {
        if self.show_mario_animation && animation_finished {
            self.show_mario_animation = false;
        }
        self.tick(now, channel)
    }

    /// Applies one key press at `now` and says what the polling loop does
    /// next.
    pub fn handle_key(&mut self, key: KeyEvent, now: u64) -> (outcome: KeyOutcome)
        ensures
            final(self)@ == old(self)@.after_key(key, now),
            outcome == old(self)@.key_outcome(key),
            old(self).wf() ==> final(self).wf(),
    {
        let plain = match key.modifiers {
            KeyModifiers::Plain => true,
            _ => false,
        };
        if self.show_mario_animation {
            if plain {
                match key.code {
                    KeyCode::Esc | KeyCode::Enter => {
                        self.show_mario_animation = false;
                    },
                    KeyCode::Char(c) => {
                        if c == ' ' {
                            self.show_mario_animation = false;
                        }
                    },
                    _ => {},
                }
            }
            return KeyOutcome::Skip;
        }
        if self.show_custom_input {
            if plain {
                match key.code {
                    KeyCode::Enter => {
                        self.parse_and_start_custom_timer(now);
                    },
                    KeyCode::Backspace => {
                        self.custom_input.pop();
                    },
                    KeyCode::Char(c) => {
                        if c == 'x' {
                            self.hide_custom_input_dialog();
                        } else if ('0' <= c && c <= '9') || c == ',' {
                            self.custom_input.push(c);
                        }
                    },
                    _ => {},
                }
            }
            return KeyOutcome::Skip;
        }
        match key.code {
            KeyCode::Esc => {
                if plain {
                    return KeyOutcome::Quit;
                }
            },
            KeyCode::Enter => {
                if plain {
                    self.toggle_timer(now);
                }
            },
            KeyCode::Char(c) => {
                if plain {
                    if c == 'w' {
                        self.start_work_session(now);
                    } else if c == 'b' {
                        self.start_break_session(now);
                    } else if c == 'c' {
                        self.show_custom_input_dialog();
                    } else if c == ' ' {
                        self.toggle_timer(now);
                    } else if c == 't' {
                        self.toggle_mode();
                    } else if c == 'x' {
                        self.show_controls_popup = !self.show_controls_popup;
                    } else if c == 'm' {
                        self.show_mario_animation = true;
                        return KeyOutcome::RestartAnimation;
                    }
                } else if c == 'c' {
                    if let KeyModifiers::Control = key.modifiers {
                        return KeyOutcome::Quit;
                    }
                }
            },
            _ => {},
        }
        KeyOutcome::Proceed
    }

    /// `duration` milliseconds as minutes and seconds.
    pub fn format_duration(duration: u64) -> (text: String)
        ensures
            text@ == clock_text(duration),
    {
        crate::text::format_duration(duration)
    }

    /// The name of the current interval kind.
    pub fn session_type_label(&self) -> (label: &'static str)
        ensures
            label@ == session_label(self.current_session.timer_type),
    {
        match self.current_session.timer_type {
            TimerType::Work => "Work",
            TimerType::Break => "Break",
        }
    }

    /// The status line: mode, activity and the count of completed intervals.
    pub fn status_line(&self) -> (line: String)
        ensures
            line@ == self@.status_line(),
    {
        let mut line = String::from_str("  Mode: ");
        line.append(
            match self.mode {
                TimerMode::Manual => "Manual",
                TimerMode::Auto => "Auto",
            },
        );
        line.append(" | Status: ");
        line.append(
            match self.current_session.timer_type {
                TimerType::Work => "Working",
                TimerType::Break => "On Break",
            },
        );
        line.append(" | Done: ");
        push_decimal(&mut line, self.completed_sessions as u64);
        line.append(" | ");
        line
    }

    /// The window title at `now`: the program's name, the interval kind and
    /// the time left.
    pub fn window_title(&self, now: u64) -> (title: String)
        ensures
            title@ == self@.window_title(now),
    {
        let remaining = self.current_session.remaining(now);
        let mut title = String::from_str("CYBER TOMATO - ");
        title.append(self.session_type_label());
        title.append(" ");
        let ghost head = title@;
        let total_seconds = remaining / 1000;
        push_two_digits(&mut title, total_seconds / 60);
        title.push(':');
        push_two_digits(&mut title, total_seconds % 60);
        assert(title@ =~= head + clock_text(remaining));
        title
    }
}

} // verus!
