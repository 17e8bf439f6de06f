use cyber_tomato::audio::{AudioChannel, Timbre, ToneSource};
use cyber_tomato::session::{Control, PomodoroSession, TimerMode, TimerType};
use cyber_tomato::timer::{
    KeyCode, KeyEvent, KeyModifiers, KeyOutcome, PomodoroTimer, DEFAULT_BREAK_DURATION,
    DEFAULT_WORK_DURATION,
};
use std::time::Duration;

fn millis(d: Duration) -> u64 {
    d.as_millis() as u64
}

fn plain(code: KeyCode) -> KeyEvent {
    KeyEvent { code, modifiers: KeyModifiers::Plain }
}

fn typed(timer: &mut PomodoroTimer, text: &str, now: u64) {
    for c in text.chars() {
        assert_eq!(timer.handle_key(plain(KeyCode::Char(c)), now), KeyOutcome::Skip);
    }
}

#[test]
fn test_format_duration() {
    assert_eq!(PomodoroTimer::format_duration(millis(Duration::from_secs(0))), "00:00");
    assert_eq!(PomodoroTimer::format_duration(millis(Duration::from_secs(30))), "00:30");
    assert_eq!(PomodoroTimer::format_duration(millis(Duration::from_secs(60))), "01:00");
    assert_eq!(PomodoroTimer::format_duration(millis(Duration::from_secs(125))), "02:05");
}

#[test]
fn test_timer_creation() {
    let timer = PomodoroTimer::new();
    assert_eq!(timer.mode, TimerMode::Auto);
    assert_eq!(timer.completed_sessions, 0);
    assert_eq!(timer.current_session.timer_type, TimerType::Work);
    assert!(!timer.current_session.is_running);
}

#[test]
fn new_timer_has_default_lengths_and_closed_dialogs() {
    let timer = PomodoroTimer::new();
    assert_eq!(timer.current_session.duration, 25 * 60 * 1000);
    assert_eq!(timer.custom_work_duration, DEFAULT_WORK_DURATION);
    assert_eq!(timer.custom_break_duration, DEFAULT_BREAK_DURATION);
    assert_eq!(DEFAULT_BREAK_DURATION, 5 * 60 * 1000);
    assert_eq!(timer.current_session.elapsed, 0);
    assert_eq!(timer.current_session.start_time, None);
    assert!(!timer.show_controls_popup);
    assert!(!timer.show_custom_input);
    assert!(!timer.show_mario_animation);
    assert_eq!(timer.custom_input, "");
    assert_eq!(timer.remaining(123), DEFAULT_WORK_DURATION);
}

#[test]
fn format_duration_beyond_an_hour_keeps_all_minute_digits() {
    assert_eq!(PomodoroTimer::format_duration(100 * 60 * 1000), "100:00");
    assert_eq!(PomodoroTimer::format_duration(59_999), "00:59");
    assert_eq!(PomodoroTimer::format_duration(1_500_000), "25:00");
    assert_eq!(PomodoroTimer::format_duration(u64::MAX), "307445734561825:51");
}

#[test]
fn window_title_shows_kind_and_time_left() {
    let mut timer = PomodoroTimer::new();
    assert_eq!(timer.window_title(0), "CYBER TOMATO - Work 25:00");
    timer.start_break_session(1_000);
    assert_eq!(timer.window_title(2_500), "CYBER TOMATO - Break 04:58");
    assert_eq!(timer.session_type_label(), "Break");
}

#[test]
fn status_line_shows_mode_activity_and_count() {
    let mut timer = PomodoroTimer::new();
    assert_eq!(timer.status_line(), "  Mode: Auto | Status: Working | Done: 0 | ");
    timer.toggle_mode();
    timer.start_break_session(0);
    timer.completed_sessions = 12;
    assert_eq!(timer.status_line(), "  Mode: Manual | Status: On Break | Done: 12 | ");
}

#[test]
fn play_melody_picks_the_cue_of_the_kind() {
    let manager = cyber_tomato::audio::AudioManager {};
    let mut channel = AudioChannel::new(true);
    manager.play_melody(TimerType::Work, &mut channel);
    assert_eq!(channel.queue.len(), 4);
    manager.play_melody(TimerType::Break, &mut channel);
    assert_eq!(channel.queue.len(), 32);
    assert_eq!(channel.queue[3].freq, 22000);
    assert_eq!(channel.queue[4].freq, 22000);
    assert_eq!(channel.queue[4].duration, 150);
    let timer = PomodoroTimer::new();
    timer.play_notification(&mut channel);
    assert_eq!(channel.queue.len(), 36);
}

#[test]
fn completion_exactness() {
    let t0 = 10_000;
    let mut session = PomodoroSession::new(TimerType::Work, 0);
    session.start(TimerType::Work, 2_000, t0);
    assert_eq!(session.tick(t0 + 1_900, TimerMode::Manual, 300_000), None);
    assert_eq!(session.remaining(t0 + 1_900), 100);
    assert_eq!(session.tick(t0 + 2_100, TimerMode::Manual, 300_000), Some(TimerType::Work));
    assert_eq!(session.tick(t0 + 2_100, TimerMode::Manual, 300_000), None);
    assert_eq!(session.remaining(t0 + 2_100), 0);
}

#[test]
fn completion_fires_once_in_auto_mode() {
    let mut timer = PomodoroTimer::new();
    let mut channel = AudioChannel::new(true);
    timer.start_timer(TimerType::Work, 2_000, 0);
    assert_eq!(timer.tick(1_900, &mut channel), None);
    assert_eq!(timer.remaining(1_900), 100);
    assert_eq!(timer.tick(2_100, &mut channel), Some(TimerType::Work));
    assert_eq!(timer.tick(2_100, &mut channel), None);
    assert_eq!(timer.completed_sessions, 1);
    assert_eq!(timer.current_session.timer_type, TimerType::Break);
    assert_eq!(timer.current_session.duration, DEFAULT_BREAK_DURATION);
    assert_eq!(timer.current_session.start_time, Some(2_100));
    assert!(timer.show_mario_animation);
    assert_eq!(channel.queue.len(), 4);
}

#[test]
fn auto_cycle_from_zero_length_work() {
    let mut timer = PomodoroTimer::new();
    let mut channel = AudioChannel::new(true);
    timer.start_timer(TimerType::Work, 0, 500);
    assert_eq!(timer.tick(500, &mut channel), Some(TimerType::Work));
    assert!(timer.current_session.is_running);
    assert_eq!(timer.current_session.timer_type, TimerType::Break);
    assert_eq!(timer.current_session.elapsed, 0);
}

#[test]
fn manual_halt_from_zero_length_work() {
    let mut timer = PomodoroTimer::new();
    let mut channel = AudioChannel::new(true);
    timer.toggle_mode();
    assert_eq!(timer.mode, TimerMode::Manual);
    timer.start_timer(TimerType::Work, 0, 500);
    assert_eq!(timer.tick(500, &mut channel), Some(TimerType::Work));
    assert!(!timer.current_session.is_running);
    assert_eq!(timer.current_session.start_time, None);
    assert_eq!(timer.remaining(500), 0);
    assert_eq!(timer.remaining(90_000), 0);
    assert_eq!(timer.current_session.timer_type, TimerType::Work);
    assert_eq!(timer.tick(90_000, &mut channel), None);
    timer.start_break_session(90_000);
    assert_eq!(timer.current_session.timer_type, TimerType::Break);
    assert!(timer.current_session.is_running);
}

#[test]
fn manual_halt_freezes_elapsed_at_completion() {
    let mut session = PomodoroSession::new(TimerType::Break, 0);
    session.start(TimerType::Break, 1_000, 100);
    session.pause(400);
    session.resume(1_000);
    assert_eq!(session.tick(1_800, TimerMode::Manual, 7), Some(TimerType::Break));
    assert_eq!(session.elapsed, 1_100);
    assert!(!session.is_running());
    assert_eq!(session.remaining(5_000), 0);
}

#[test]
fn break_completion_queues_the_long_melody_and_no_animation() {
    let mut timer = PomodoroTimer::new();
    let mut channel = AudioChannel::new(true);
    timer.start_timer(TimerType::Break, 1_000, 0);
    assert_eq!(timer.tick(1_000, &mut channel), Some(TimerType::Break));
    assert_eq!(channel.queue.len(), 28);
    assert!(!timer.show_mario_animation);
    assert_eq!(timer.current_session.timer_type, TimerType::Work);
    assert_eq!(timer.current_session.duration, DEFAULT_WORK_DURATION);
    let first = channel.queue[0];
    assert_eq!(first, ToneSource::new(cyber_tomato::audio::tone(22000, 150), 44100, Timbre::Harmonic));
}

#[test]
fn completion_on_a_disabled_channel_still_cycles() {
    let mut timer = PomodoroTimer::new();
    let mut channel = AudioChannel::new(false);
    timer.start_timer(TimerType::Work, 10, 0);
    assert_eq!(timer.end_cycle(false, 10, &mut channel), Some(TimerType::Work));
    assert!(channel.queue.is_empty());
    assert_eq!(timer.completed_sessions, 1);
    assert_eq!(timer.current_session.timer_type, TimerType::Break);
}

#[test]
fn completed_count_stops_at_the_largest_value() {
    let mut timer = PomodoroTimer::new();
    let mut channel = AudioChannel::new(false);
    timer.completed_sessions = u32::MAX;
    timer.start_timer(TimerType::Work, 0, 0);
    assert_eq!(timer.complete_session(0, &mut channel), TimerType::Work);
    assert_eq!(timer.completed_sessions, u32::MAX);
}

#[test]
fn pause_is_idempotent() {
    let mut once = PomodoroSession::new(TimerType::Work, 60_000);
    once.start(TimerType::Work, 60_000, 1_000);
    let mut twice = once;
    once.pause(4_000);
    twice.pause(4_000);
    twice.pause(9_000);
    assert_eq!(once.elapsed, 3_000);
    assert_eq!(twice.elapsed, once.elapsed);
    assert_eq!(twice.is_running, once.is_running);
    assert_eq!(twice.start_time, once.start_time);
}

#[test]
fn resume_is_idempotent() {
    let mut once = PomodoroSession::new(TimerType::Work, 60_000);
    let mut twice = once;
    once.resume(2_000);
    twice.resume(2_000);
    twice.resume(7_000);
    assert_eq!(twice.start_time, Some(2_000));
    assert_eq!(twice.elapsed, once.elapsed);
    assert_eq!(twice.is_running, once.is_running);
    assert_eq!(twice.start_time, once.start_time);
}

#[test]
fn elapsed_grows_while_running_and_is_frozen_while_paused() {
    let mut session = PomodoroSession::new(TimerType::Work, 60_000);
    assert_eq!(session.elapsed_at(50), 0);
    session.start(TimerType::Work, 60_000, 100);
    assert_eq!(session.elapsed_at(100), 0);
    assert_eq!(session.elapsed_at(350), 250);
    session.pause(1_100);
    assert_eq!(session.elapsed_at(1_100), 1_000);
    assert_eq!(session.elapsed_at(99_000), 1_000);
    session.resume(5_000);
    assert_eq!(session.elapsed_at(5_000), 1_000);
    assert_eq!(session.elapsed_at(5_500), 1_500);
    session.toggle(6_000);
    assert!(!session.is_running());
    assert_eq!(session.elapsed_at(8_000), 2_000);
    assert_eq!(session.remaining(8_000), 58_000);
    assert!(!session.is_finished(8_000));
}

#[test]
fn elapsed_never_decreases_over_a_run_of_controls() {
    let steps = [
        (Control::Start(TimerType::Work, 60_000), 100),
        (Control::Pause, 300),
        (Control::Pause, 350),
        (Control::Resume, 1_000),
        (Control::Resume, 1_200),
        (Control::Toggle, 1_500),
        (Control::Toggle, 1_500),
        (Control::Pause, 2_000),
    ];
    let expected = [0, 200, 200, 200, 400, 700, 700, 1_200];
    let mut session = PomodoroSession::new(TimerType::Break, 5);
    let mut last = 0;
    for ((control, at), want) in steps.iter().zip(expected.iter()) {
        session.apply(*control, *at);
        let elapsed = session.elapsed_at(*at);
        assert_eq!(elapsed, *want);
        assert!(elapsed >= last);
        assert_eq!(session.is_running, session.start_time.is_some());
        last = elapsed;
    }
    assert_eq!(session.timer_type, TimerType::Work);
    session.apply(Control::Start(TimerType::Break, 9), 3_000);
    assert_eq!(session.elapsed_at(3_000), 0);
    assert_eq!(session.duration, 9);
}

#[test]
fn clock_behind_resume_time_counts_as_no_time() {
    let mut session = PomodoroSession::new(TimerType::Work, 1_000);
    session.start(TimerType::Work, 1_000, 500);
    assert_eq!(session.elapsed_at(400), 0);
    assert_eq!(session.remaining(400), 1_000);
}

#[test]
fn elapsed_saturates() {
    let mut session = PomodoroSession::new(TimerType::Work, u64::MAX);
    session.elapsed = u64::MAX - 5;
    session.resume(0);
    assert_eq!(session.elapsed_at(100), u64::MAX);
    assert!(session.is_finished(100));
    session.pause(100);
    assert_eq!(session.elapsed, u64::MAX);
}

#[test]
fn opposite_kinds() {
    assert_eq!(TimerType::Work.opposite(), TimerType::Break);
    assert_eq!(TimerType::Break.opposite(), TimerType::Work);
}

#[test]
fn custom_session_sets_both_lengths() {
    let mut timer = PomodoroTimer::new();
    timer.start_custom_session(30, Some(10), 77);
    assert_eq!(timer.custom_work_duration, 30 * 60_000);
    assert_eq!(timer.custom_break_duration, 10 * 60_000);
    assert_eq!(timer.current_session.timer_type, TimerType::Work);
    assert_eq!(timer.current_session.duration, 1_800_000);
    assert_eq!(timer.current_session.start_time, Some(77));
    timer.start_custom_session(u32::MAX, None, 78);
    assert_eq!(timer.custom_work_duration, 4_294_967_295 * 60_000);
    assert_eq!(timer.custom_break_duration, DEFAULT_BREAK_DURATION);
}

#[test]
fn keys_drive_the_timer() {
    let mut timer = PomodoroTimer::new();
    assert_eq!(timer.handle_key(plain(KeyCode::Char('w')), 10), KeyOutcome::Proceed);
    assert!(timer.current_session.is_running);
    assert_eq!(timer.current_session.start_time, Some(10));
    assert_eq!(timer.handle_key(plain(KeyCode::Char(' ')), 1_010), KeyOutcome::Proceed);
    assert!(!timer.current_session.is_running);
    assert_eq!(timer.current_session.elapsed, 1_000);
    assert_eq!(timer.handle_key(plain(KeyCode::Enter), 2_000), KeyOutcome::Proceed);
    assert!(timer.current_session.is_running);
    assert_eq!(timer.handle_key(plain(KeyCode::Char('b')), 3_000), KeyOutcome::Proceed);
    assert_eq!(timer.current_session.timer_type, TimerType::Break);
    assert_eq!(timer.handle_key(plain(KeyCode::Char('t')), 3_000), KeyOutcome::Proceed);
    assert_eq!(timer.mode, TimerMode::Manual);
    assert_eq!(timer.handle_key(plain(KeyCode::Char('x')), 3_000), KeyOutcome::Proceed);
    assert!(timer.show_controls_popup);
    assert_eq!(timer.handle_key(plain(KeyCode::Char('x')), 3_000), KeyOutcome::Proceed);
    assert!(!timer.show_controls_popup);
    assert_eq!(timer.handle_key(plain(KeyCode::Other), 3_000), KeyOutcome::Proceed);
    assert_eq!(timer.handle_key(plain(KeyCode::Esc), 3_000), KeyOutcome::Quit);
    let ctrl_c = KeyEvent { code: KeyCode::Char('c'), modifiers: KeyModifiers::Control };
    assert_eq!(timer.handle_key(ctrl_c, 3_000), KeyOutcome::Quit);
    assert!(!timer.show_custom_input);
    let shifted = KeyEvent { code: KeyCode::Char('w'), modifiers: KeyModifiers::Other };
    assert_eq!(timer.handle_key(shifted, 9_000), KeyOutcome::Proceed);
    assert_eq!(timer.current_session.timer_type, TimerType::Break);
}

#[test]
fn animation_swallows_keys_until_dismissed() {
    let mut timer = PomodoroTimer::new();
    assert_eq!(timer.handle_key(plain(KeyCode::Char('m')), 0), KeyOutcome::RestartAnimation);
    assert!(timer.show_mario_animation);
    assert_eq!(timer.handle_key(plain(KeyCode::Char('w')), 5), KeyOutcome::Skip);
    assert!(timer.show_mario_animation);
    assert!(!timer.current_session.is_running);
    assert_eq!(timer.handle_key(plain(KeyCode::Esc), 5), KeyOutcome::Skip);
    assert!(!timer.show_mario_animation);
    timer.handle_key(plain(KeyCode::Char('m')), 0);
    assert_eq!(timer.handle_key(plain(KeyCode::Char(' ')), 5), KeyOutcome::Skip);
    assert!(!timer.show_mario_animation);
}

#[test]
fn finished_animation_is_taken_down_at_the_end_of_a_cycle() {
    let mut timer = PomodoroTimer::new();
    let mut channel = AudioChannel::new(true);
    timer.handle_key(plain(KeyCode::Char('m')), 0);
    assert_eq!(timer.end_cycle(false, 1, &mut channel), None);
    assert!(timer.show_mario_animation);
    assert_eq!(timer.end_cycle(true, 2, &mut channel), None);
    assert!(!timer.show_mario_animation);
}

#[test]
fn dialog_edits_and_confirms_custom_lengths() {
    let mut timer = PomodoroTimer::new();
    assert_eq!(timer.handle_key(plain(KeyCode::Char('c')), 0), KeyOutcome::Proceed);
    assert!(timer.show_custom_input);
    typed(&mut timer, "3a0,19", 0);
    assert_eq!(timer.custom_input, "30,19");
    assert_eq!(timer.handle_key(plain(KeyCode::Backspace), 0), KeyOutcome::Skip);
    assert_eq!(timer.custom_input, "30,1");
    typed(&mut timer, "0", 0);
    assert_eq!(timer.handle_key(plain(KeyCode::Enter), 42), KeyOutcome::Skip);
    assert!(!timer.show_custom_input);
    assert_eq!(timer.custom_input, "");
    assert_eq!(timer.custom_work_duration, 30 * 60_000);
    assert_eq!(timer.custom_break_duration, 10 * 60_000);
    assert!(timer.current_session.is_running);
    assert_eq!(timer.current_session.start_time, Some(42));
}

#[test]
fn dialog_keeps_an_invalid_text_and_closes_on_an_empty_one() {
    let mut timer = PomodoroTimer::new();
    timer.show_custom_input_dialog();
    typed(&mut timer, "1,2,3", 0);
    timer.handle_key(plain(KeyCode::Enter), 1);
    assert!(timer.show_custom_input);
    assert_eq!(timer.custom_input, "1,2,3");
    assert!(!timer.current_session.is_running);
    for _ in 0..7 {
        timer.handle_key(plain(KeyCode::Backspace), 1);
    }
    assert_eq!(timer.custom_input, "");
    timer.handle_key(plain(KeyCode::Enter), 1);
    assert!(!timer.show_custom_input);
    timer.show_custom_input_dialog();
    typed(&mut timer, "12", 0);
    assert_eq!(timer.handle_key(plain(KeyCode::Char('x')), 1), KeyOutcome::Skip);
    assert!(!timer.show_custom_input);
    assert_eq!(timer.custom_input, "");
}

#[test]
fn progress_and_finish() {
    let mut timer = PomodoroTimer::new();
    timer.start_timer(TimerType::Work, 5_000, 1_000);
    assert_eq!(timer.get_timer_progress(3_000), (2_000, 5_000));
    assert!(!timer.is_timer_finished(5_999));
    assert!(timer.is_timer_finished(6_000));
    timer.pause_timer(3_000);
    timer.pause_timer(4_000);
    assert_eq!(timer.get_timer_progress(9_000), (2_000, 5_000));
    timer.resume_timer(10_000);
    timer.toggle_timer(10_500);
    assert_eq!(timer.get_timer_progress(20_000), (2_500, 5_000));
}
