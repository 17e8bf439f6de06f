//! The celebration animation without its picture: its clock, its frame
//! count, what has been hit, and which tones go to the music and to the
//! effects channel. Where things are on the screen is decided where they are
//! drawn.

use crate::audio::{render_all, tone, AudioChannel, Timbre, Tone, ToneSource};
use vstd::prelude::*;

verus! {

/// How long the animation shows, in milliseconds.
pub const ANIMATION_LENGTH: u64 = 10_000;

/// The theme that plays under the animation.
pub open spec fn theme_melody() -> Seq<Tone> {
    seq![
        Tone { frequency: 65925, duration: 150 },
        Tone { frequency: 65925, duration: 150 },
        Tone { frequency: 0, duration: 150 },
        Tone { frequency: 65925, duration: 150 },
        Tone { frequency: 0, duration: 150 },
        Tone { frequency: 52325, duration: 150 },
        Tone { frequency: 65925, duration: 150 },
        Tone { frequency: 0, duration: 150 },
        Tone { frequency: 78399, duration: 150 },
        Tone { frequency: 0, duration: 450 },
        Tone { frequency: 39200, duration: 150 },
        Tone { frequency: 0, duration: 450 },
        Tone { frequency: 52325, duration: 150 },
        Tone { frequency: 0, duration: 300 },
        Tone { frequency: 39200, duration: 150 },
        Tone { frequency: 0, duration: 300 },
        Tone { frequency: 32963, duration: 150 },
        Tone { frequency: 0, duration: 300 },
        Tone { frequency: 44000, duration: 150 },
        Tone { frequency: 0, duration: 150 },
        Tone { frequency: 49388, duration: 150 },
        Tone { frequency: 0, duration: 150 },
        Tone { frequency: 46616, duration: 150 },
        Tone { frequency: 44000, duration: 150 },
        Tone { frequency: 0, duration: 150 },
        Tone { frequency: 39200, duration: 200 },
        Tone { frequency: 65925, duration: 200 },
        Tone { frequency: 78399, duration: 200 },
        Tone { frequency: 88000, duration: 150 },
        Tone { frequency: 0, duration: 150 },
        Tone { frequency: 69846, duration: 150 },
        Tone { frequency: 78399, duration: 150 },
        Tone { frequency: 0, duration: 150 },
        Tone { frequency: 65925, duration: 150 },
        Tone { frequency: 0, duration: 150 },
        Tone { frequency: 52325, duration: 150 },
        Tone { frequency: 58733, duration: 150 },
        Tone { frequency: 49388, duration: 150 },
        Tone { frequency: 0, duration: 300 },
    ]
}

/// The two rising tones of a jump.
pub open spec fn jump_melody() -> Seq<Tone> {
    seq![
        Tone { frequency: 52325, duration: 100 },
        Tone { frequency: 65925, duration: 100 },
    ]
}

/// The three short tones of breaking bricks.
pub open spec fn brick_break_melody() -> Seq<Tone> {
    seq![
        Tone { frequency: 104650, duration: 80 },
        Tone { frequency: 0, duration: 20 },
        Tone { frequency: 117466, duration: 80 },
        Tone { frequency: 0, duration: 20 },
        Tone { frequency: 131851, duration: 120 },
    ]
}

/// The rising run of a power-up.
pub open spec fn powerup_melody() -> Seq<Tone> {
    seq![
        Tone { frequency: 39200, duration: 100 },
        Tone { frequency: 52325, duration: 100 },
        Tone { frequency: 65925, duration: 100 },
        Tone { frequency: 78399, duration: 100 },
        Tone { frequency: 104650, duration: 100 },
        Tone { frequency: 131851, duration: 300 },
    ]
}

/// The state of the animation and its two channels: one for the theme, one
/// for short effects, so that an effect never waits behind the theme.
#[derive(Debug)]
pub struct MarioAnimation {
    pub tomato_hit: bool,
    pub tomato_exploding: bool,
    pub bricks_hit: bool,
    pub animation_frame: u32,
    pub started: bool,
    pub start_time: Option<u64>,
    pub music_started: bool,
    pub music: AudioChannel,
    pub sfx: AudioChannel,
}

/// The animation as a plain value.
pub struct AnimationState {
    pub tomato_hit: bool,
    pub tomato_exploding: bool,
    pub bricks_hit: bool,
    pub animation_frame: u32,
    pub started: bool,
    pub start_time: Option<u64>,
    pub music_started: bool,
    pub music_enabled: bool,
    pub music: Seq<ToneSource>,
    pub sfx_enabled: bool,
    pub sfx: Seq<ToneSource>,
}

impl View for MarioAnimation {
    type V = AnimationState;

    open spec fn view(&self) -> AnimationState {
        AnimationState {
            tomato_hit: self.tomato_hit,
            tomato_exploding: self.tomato_exploding,
            bricks_hit: self.bricks_hit,
            animation_frame: self.animation_frame,
            started: self.started,
            start_time: self.start_time,
            music_started: self.music_started,
            music_enabled: self.music.enabled,
            music: self.music.queue@,
            sfx_enabled: self.sfx.enabled,
            sfx: self.sfx.queue@,
        }
    }
}

impl AnimationState {
    /// An animation that has not started, with both channels empty.
    pub open spec fn initial(device_available: bool) -> AnimationState {
        AnimationState {
            tomato_hit: false,
            tomato_exploding: false,
            bricks_hit: false,
            animation_frame: 0,
            started: false,
            start_time: None,
            music_started: false,
            music_enabled: device_available,
            music: Seq::empty(),
            sfx_enabled: device_available,
            sfx: Seq::empty(),
        }
    }

    /// The state with `tones` queued on the effects channel if it is
    /// enabled.
    pub open spec fn with_effect(self, tones: Seq<Tone>) -> AnimationState {
        AnimationState {
            sfx: if self.sfx_enabled {
                self.sfx + render_all(tones, Timbre::Square)
            } else {
                self.sfx
            },
            ..self
        }
    }

    /// The state with the theme queued on the music channel, unless it was
    /// queued before.
    pub open spec fn with_theme(self) -> AnimationState {
        AnimationState {
            music_started: true,
            music: if !self.music_started && self.music_enabled {
                self.music + render_all(theme_melody(), Timbre::Square)
            } else {
                self.music
            },
            ..self
        }
    }

    /// The state after `start` at `now`.
    pub open spec fn start(self, now: u64) -> AnimationState {
        AnimationState { started: true, start_time: Some(now), ..self }.with_theme()
    }

    /// The state after the frame count has gone up by one; the count is held
    /// at the largest `u32`, and an animation that has not started does not
    /// count.
    pub open spec fn next_frame(self) -> AnimationState {
        if self.started && self.animation_frame < u32::MAX {
            AnimationState { animation_frame: (self.animation_frame + 1) as u32, ..self }
        } else {
            self
        }
    }

    /// The state after the cat has hit the bricks.
    pub open spec fn hit_bricks(self) -> AnimationState {
        AnimationState { bricks_hit: true, ..self }.with_effect(brick_break_melody())
    }

    /// The state after the tomato has burst.
    pub open spec fn explode_tomato(self) -> AnimationState {
        AnimationState { tomato_hit: true, tomato_exploding: true, ..self }.with_effect(
            powerup_melody(),
        )
    }

    /// The animation has shown for more than its length at `now`. One that
    /// was never started is never finished.
    pub open spec fn finished(self, now: u64) -> bool {
        match self.start_time {
            Some(begun) => now - begun > ANIMATION_LENGTH,
            None => false,
        }
    }

    /// The broken bricks flash: after the hit, until the tomato bursts, four
    /// frames on and four frames off.
    pub open spec fn flashing(self) -> bool {
        self.bricks_hit && !self.tomato_hit && self.animation_frame % 8 < 4
    }

    /// The tail points forward for ten frames, then back for ten.
    pub open spec fn tail_forward(self) -> bool {
        self.animation_frame % 20 < 10
    }
}

impl MarioAnimation {
    /// An animation that has not started, with both channels empty and
    /// enabled if the device is there.
    pub fn new(device_available: bool) -> (animation: MarioAnimation)
        ensures
            animation@ == AnimationState::initial(device_available),
    {
        MarioAnimation {
            tomato_hit: false,
            tomato_exploding: false,
            bricks_hit: false,
            animation_frame: 0,
            started: false,
            start_time: None,
            music_started: false,
            music: AudioChannel::new(device_available),
            sfx: AudioChannel::new(device_available),
        }
    }

    /// Starts the animation at `now` and, the first time, its theme.
    pub fn start(&mut self, now: u64)
        ensures
            final(self)@ == old(self)@.start(now),
    {
        self.started = true;
        self.start_time = Some(now);
        self.start_mario_theme();
    }

    /// Whether the animation is over at `now`.
    pub fn is_finished(&self, now: u64) -> (done: bool)
        ensures
            done == self@.finished(now),
    {
        match self.start_time {
            Some(begun) => now > begun && now - begun > ANIMATION_LENGTH,
            None => false,
        }
    }

    /// Counts one frame of a started animation and says whether it has
    /// started.
    pub fn begin_frame(&mut self) -> (started: bool)
        ensures
            final(self)@ == old(self)@.next_frame(),
            started == old(self).started,
    {
        if self.started && self.animation_frame < u32::MAX {
            self.animation_frame += 1;
        }
        self.started
    }

    /// The cat has hit the bricks: they count as hit, and the brick-break
    /// effect is queued.
    pub fn hit_bricks(&mut self)
        ensures
            final(self)@ == old(self)@.hit_bricks(),
    {
        self.bricks_hit = true;
        self.play_brick_break_sound();
    }

    /// The tomato has reached the ground: it counts as hit and bursting, and
    /// the power-up effect is queued.
    pub fn explode_tomato(&mut self)
        ensures
            final(self)@ == old(self)@.explode_tomato(),
    {
        self.tomato_hit = true;
        self.tomato_exploding = true;
        self.play_powerup_sound();
    }

    /// Whether the broken bricks are lit in this frame.
    pub fn is_flashing(&self) -> (lit: bool)
        ensures
            lit == self@.flashing(),
    {
        self.bricks_hit && !self.tomato_hit && self.animation_frame % 8 < 4
    }

    /// Whether the tail points forward in this frame.
    pub fn tail_points_forward(&self) -> (forward: bool)
        ensures
            forward == self@.tail_forward(),
    {
        self.animation_frame % 20 < 10
    }

    /// Queues the theme on the music channel, once: a second call does
    /// nothing.
    pub fn start_mario_theme(&mut self)
        ensures
            final(self)@ == old(self)@.with_theme(),
    {
        if self.music_started {
            return ;
        }
        self.music_started = true;
        let mario_theme = vec![
            tone(65925, 150),
            tone(65925, 150),
            tone(0, 150),
            tone(65925, 150),
            tone(0, 150),
            tone(52325, 150),
            tone(65925, 150),
            tone(0, 150),
            tone(78399, 150),
            tone(0, 450),
            tone(39200, 150),
            tone(0, 450),
            tone(52325, 150),
            tone(0, 300),
            tone(39200, 150),
            tone(0, 300),
            tone(32963, 150),
            tone(0, 300),
            tone(44000, 150),
            tone(0, 150),
            tone(49388, 150),
            tone(0, 150),
            tone(46616, 150),
            tone(44000, 150),
            tone(0, 150),
            tone(39200, 200),
            tone(65925, 200),
            tone(78399, 200),
            tone(88000, 150),
            tone(0, 150),
            tone(69846, 150),
            tone(78399, 150),
            tone(0, 150),
            tone(65925, 150),
            tone(0, 150),
            tone(52325, 150),
            tone(58733, 150),
            tone(49388, 150),
            tone(0, 300),
        ];
        assert(mario_theme@ =~= theme_melody());
        self.music.play(&mario_theme, Timbre::Square);
    }

    /// Queues the jump effect.
    pub fn play_jump_sound(&mut self)
        ensures
            final(self)@ == old(self)@.with_effect(jump_melody()),
    {
        let jump_tones = vec![
            tone(52325, 100),
            tone(65925, 100),
        ];
        assert(jump_tones@ =~= jump_melody());
        self.play_sound_effect(&jump_tones);
    }

    /// Queues the brick-break effect.
    pub fn play_brick_break_sound(&mut self)
        ensures
            final(self)@ == old(self)@.with_effect(brick_break_melody()),
    {
        let break_tones = vec![
            tone(104650, 80),
            tone(0, 20),
            tone(117466, 80),
            tone(0, 20),
            tone(131851, 120),
        ];
        assert(break_tones@ =~= brick_break_melody());
        self.play_sound_effect(&break_tones);
    }

    /// Queues the power-up effect.
    pub fn play_powerup_sound(&mut self)
        ensures
            final(self)@ == old(self)@.with_effect(powerup_melody()),
    {
        let powerup_tones = vec![
            tone(39200, 100),
            tone(52325, 100),
            tone(65925, 100),
            tone(78399, 100),
            tone(104650, 100),
            tone(131851, 300),
        ];
        assert(powerup_tones@ =~= powerup_melody());
        self.play_sound_effect(&powerup_tones);
    }

    /// Queues `tones` on the effects channel, in order, in the square voice.
    pub fn play_sound_effect(&mut self, tones: &Vec<Tone>)
        ensures
            final(self)@ == old(self)@.with_effect(tones@),
    {
        self.sfx.play(tones, Timbre::Square);
    }
}

/// The theme plays once however often the animation is started, and no
/// effect ever touches the music channel.
pub proof fn lemma_theme_plays_once(state: AnimationState, first: u64, second: u64, tones: Seq<Tone>)
    ensures
        state.start(first).start(second).music == state.start(first).music,
        state.with_theme().with_theme() == state.with_theme(),
        state.with_effect(tones).music == state.music,
        state.hit_bricks().music == state.music,
        state.explode_tomato().music == state.music,
{
}

} // verus!
