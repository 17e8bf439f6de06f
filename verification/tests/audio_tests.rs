use cyber_tomato::audio::{
    break_complete_tones, tone, work_complete_tones, AudioChannel, AudioManager, Timbre, Tone,
    ToneSource, SAMPLE_RATE,
};
use cyber_tomato::mario_animation::MarioAnimation;

#[test]
fn sample_counts_are_rounded_to_nearest() {
    assert_eq!(ToneSource::new(tone(44000, 100), 44100, Timbre::Harmonic).total_samples, 4410);
    assert_eq!(ToneSource::new(tone(44000, 5), 44100, Timbre::Harmonic).total_samples, 221);
    assert_eq!(ToneSource::new(tone(44000, 1), 44100, Timbre::Harmonic).total_samples, 44);
    assert_eq!(ToneSource::new(tone(44000, 1), 1_499, Timbre::Harmonic).total_samples, 1);
    assert_eq!(ToneSource::new(tone(44000, 1), 1_500, Timbre::Harmonic).total_samples, 2);
    assert_eq!(ToneSource::new(tone(44000, 0), 44100, Timbre::Harmonic).total_samples, 0);
    assert_eq!(
        ToneSource::new(tone(1, u32::MAX), u32::MAX, Timbre::Square).total_samples,
        18_446_744_065_119_617
    );
}

#[test]
fn silence_has_the_same_count_and_is_marked() {
    let mut rest = ToneSource::new(tone(0, 300), SAMPLE_RATE, Timbre::Harmonic);
    assert!(rest.is_silence());
    assert_eq!(rest.current_frame_len(), 13_230);
    let mut produced = 0u64;
    while rest.next().is_some() {
        produced += 1;
    }
    assert_eq!(produced, 13_230);
    assert!(!ToneSource::new(tone(1, 300), SAMPLE_RATE, Timbre::Harmonic).is_silence());
}

#[test]
fn a_source_yields_each_position_once_then_ends() {
    let mut source = ToneSource::new(tone(52325, 1), 3_000, Timbre::Square);
    assert_eq!(source.channels(), 1);
    assert_eq!(source.sample_rate(), 3_000);
    assert_eq!(source.total_duration(), 1);
    assert_eq!(source.current_frame_len(), 3);
    assert_eq!(source.next(), Some(0));
    assert_eq!(source.current_frame_len(), 2);
    assert_eq!(source.next(), Some(1));
    assert_eq!(source.next(), Some(2));
    assert_eq!(source.current_frame_len(), 0);
    assert_eq!(source.next(), None);
    assert_eq!(source.next(), None);
    assert_eq!(source.sample_idx, 3);
}

#[test]
fn channel_keeps_submission_order() {
    let mut channel = AudioChannel::new(true);
    let a = ToneSource::new(tone(44000, 10), SAMPLE_RATE, Timbre::Harmonic);
    let b = ToneSource::new(tone(88000, 20), SAMPLE_RATE, Timbre::Harmonic);
    channel.append(a);
    channel.append(b);
    assert_eq!(channel.queue, vec![a, b]);
    let taken = channel.take_queued();
    assert_eq!(taken, vec![a, b]);
    assert!(channel.queue.is_empty());
    assert!(channel.enabled);
}

#[test]
fn disabled_channel_ignores_appends() {
    let mut channel = AudioChannel::new(false);
    channel.append(ToneSource::new(tone(44000, 10), SAMPLE_RATE, Timbre::Harmonic));
    channel.play(&work_complete_tones(), Timbre::Harmonic);
    AudioManager {}.play_break_complete_music(&mut channel);
    assert!(channel.queue.is_empty());
    assert!(!channel.enabled);
    assert!(channel.take_queued().is_empty());
}

#[test]
fn play_renders_each_tone_in_order() {
    let mut channel = AudioChannel::new(true);
    let tones = vec![tone(44000, 100), tone(0, 50), tone(88000, 25)];
    channel.play(&tones, Timbre::Square);
    assert_eq!(channel.queue.len(), 3);
    for (source, t) in channel.queue.iter().zip(tones.iter()) {
        assert_eq!(*source, ToneSource::new(*t, 44100, Timbre::Square));
    }
    assert_eq!(channel.queue[1].total_samples, 2205);
    assert!(channel.queue[1].is_silence());
}

#[test]
fn work_complete_cue_is_four_falling_tones() {
    let tones = work_complete_tones();
    assert_eq!(
        tones,
        vec![
            Tone { frequency: 176000, duration: 100 },
            Tone { frequency: 88000, duration: 100 },
            Tone { frequency: 44000, duration: 150 },
            Tone { frequency: 22000, duration: 200 },
        ]
    );
    let mut channel = AudioChannel::new(true);
    let earlier = ToneSource::new(tone(100, 1), SAMPLE_RATE, Timbre::Square);
    channel.append(earlier);
    AudioManager {}.play_work_complete_sound(&mut channel);
    assert_eq!(channel.queue.len(), 5);
    assert_eq!(channel.queue[0], earlier);
    assert_eq!(channel.queue[1].freq, 176000);
    assert_eq!(channel.queue[4].total_samples, 8820);
    assert_eq!(channel.queue[4].timbre, Timbre::Harmonic);
}

#[test]
fn break_complete_music_has_its_rests() {
    let tones = break_complete_tones();
    assert_eq!(tones.len(), 28);
    assert_eq!(tones[0], tone(22000, 150));
    assert_eq!(tones[4], tone(0, 300));
    assert_eq!(tones[5], tone(52325, 300));
    assert_eq!(tones[27], tone(131851, 600));
    assert_eq!(tones.iter().filter(|t| t.frequency == 0).count(), 4);
    let total: u32 = tones.iter().map(|t| t.duration).sum();
    assert_eq!(total, 7_600);
    let mut channel = AudioChannel::new(true);
    AudioManager {}.play_audio(&tones, &mut channel);
    assert_eq!(channel.queue.len(), 28);
}

#[test]
fn animation_theme_starts_once() {
    let mut cues = MarioAnimation::new(true);
    assert!(!cues.is_finished(1_000_000));
    cues.start(1_000);
    assert!(cues.started);
    assert_eq!(cues.music.queue.len(), 39);
    assert_eq!(cues.music.queue[0].timbre, Timbre::Square);
    assert_eq!(cues.music.queue[0].freq, 65925);
    assert_eq!(cues.music.queue[38].total_samples, 13_230);
    cues.start(2_000);
    cues.start_mario_theme();
    assert_eq!(cues.music.queue.len(), 39);
    assert_eq!(cues.start_time, Some(2_000));
    assert!(!cues.is_finished(12_000));
    assert!(cues.is_finished(12_001));
    assert!(!cues.is_finished(0));
}

#[test]
fn animation_counts_frames_and_hits() {
    let mut animation = MarioAnimation::new(true);
    assert!(!animation.begin_frame());
    assert_eq!(animation.animation_frame, 0);
    animation.start(0);
    assert!(animation.begin_frame());
    assert_eq!(animation.animation_frame, 1);
    assert!(!animation.is_flashing());
    assert!(animation.tail_points_forward());
    animation.hit_bricks();
    assert!(animation.bricks_hit);
    assert_eq!(animation.sfx.queue.len(), 5);
    assert!(animation.is_flashing());
    for _ in 0..3 {
        animation.begin_frame();
    }
    assert_eq!(animation.animation_frame, 4);
    assert!(!animation.is_flashing());
    for _ in 0..6 {
        animation.begin_frame();
    }
    assert!(!animation.tail_points_forward());
    assert!(animation.is_flashing());
    animation.explode_tomato();
    assert!(animation.tomato_hit);
    assert!(animation.tomato_exploding);
    assert_eq!(animation.sfx.queue.len(), 11);
    assert!(!animation.is_flashing());
    animation.animation_frame = u32::MAX;
    assert!(animation.begin_frame());
    assert_eq!(animation.animation_frame, u32::MAX);
}

#[test]
fn effects_go_to_their_own_channel() {
    let mut cues = MarioAnimation::new(true);
    cues.play_jump_sound();
    assert_eq!(cues.sfx.queue.len(), 2);
    cues.play_brick_break_sound();
    assert_eq!(cues.sfx.queue.len(), 7);
    assert!(cues.sfx.queue[3].is_silence());
    assert_eq!(cues.sfx.queue[3].total_samples, 882);
    cues.play_powerup_sound();
    assert_eq!(cues.sfx.queue.len(), 13);
    assert_eq!(cues.sfx.queue[12].freq, 131851);
    cues.play_sound_effect(&vec![tone(1, 1)]);
    assert_eq!(cues.sfx.queue.len(), 14);
    assert!(cues.music.queue.is_empty());
    let mut mute = MarioAnimation::new(false);
    mute.start(0);
    mute.play_jump_sound();
    assert!(mute.music.queue.is_empty());
    assert!(mute.sfx.queue.is_empty());
    assert!(mute.music_started);
}
