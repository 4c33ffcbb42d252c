//! The controller as mathematics: its state as plain values, and what a
//! key event, a clock tick, a painted frame and a recorded redraw make of
//! it.

use crate::clock::span;
use crate::effect::Overlay;
use crate::effect::OverlayKind;
use crate::effect::FADE_OUT_DURATION;
use crate::effect::TYPING_EFFECT_DURATION;
use crate::state::is_ignored_key;
use crate::state::is_special_key;
use crate::state::new_chars_of_key;
use crate::state::next_frame;
use crate::state::text_after_key;
use crate::state::AnimationState;
use crate::state::EffectsRun;
use crate::state::IDLE_ANIMATION_DURATION;
use crate::state::IDLE_FRAME_COUNT;
use crate::state::MAX_TEXT_LENGTH;
use crate::state::SCANLINE_PERIOD;
use crate::state::SCANLINE_STRIDE;
use crate::state::TYPING_ANIMATION_DURATION;
use crate::state::TYPING_FRAME_COUNT;
use crate::state::TYPING_LINGER_DURATION;
use vstd::prelude::*;

verus! {

/// The controller's state as plain values.
#[verifier::ext_equal]
pub struct AppView {
    pub animation_state: AnimationState,
    pub typing_frame: usize,
    pub idle_frame: usize,
    pub last_keypress_time: u64,
    pub typed_text: Seq<char>,
    pub last_typing_frame_time: u64,
    pub last_idle_frame_time: u64,
    pub should_quit: bool,
    pub scanline_offset: u16,
    pub frame_count: u64,
    pub last_rendered_state: Option<AnimationState>,
    pub last_rendered_frame: usize,
    pub last_rendered_text: Seq<char>,
    pub last_terminal_size: (u16, u16),
    pub fade_effect: Option<Overlay>,
    pub typing_effect: Option<Overlay>,
    pub last_frame_time: u64,
    pub is_special_key_text: bool,
    pub new_char_count: usize,
    pub last_key: Option<Seq<char>>,
}

impl AppView {
    /// The invariant of the controller: the frames are within their
    /// counts, the text is within its cap, and the scanline is within
    /// its cycle; no overlay has more time left than it started with; a
    /// fade-out exists only in `Idle`; and in `Typing` there is a
    /// materialize overlay.
    pub open spec fn wf(self) -> bool {
        &&& self.typing_frame < TYPING_FRAME_COUNT
        &&& self.idle_frame < IDLE_FRAME_COUNT
        &&& self.typed_text.len() <= MAX_TEXT_LENGTH
        &&& self.scanline_offset < SCANLINE_PERIOD
        &&& (self.fade_effect matches Some(fade) ==> fade.wf() && self.animation_state
            == AnimationState::Idle)
        &&& (self.typing_effect matches Some(typing) ==> typing.wf())
        &&& (self.animation_state == AnimationState::Typing ==> self.typing_effect is Some)
    }

    /// The state at creation: idle, nothing typed, nothing drawn, every
    /// timer at `now`.
    pub open spec fn initial(now: u64) -> AppView {
        AppView {
            animation_state: AnimationState::Idle,
            typing_frame: 0,
            idle_frame: 0,
            last_keypress_time: now,
            typed_text: Seq::empty(),
            last_typing_frame_time: now,
            last_idle_frame_time: now,
            should_quit: false,
            scanline_offset: 0,
            frame_count: 0,
            last_rendered_state: None,
            last_rendered_frame: 0,
            last_rendered_text: Seq::empty(),
            last_terminal_size: (0, 0),
            fade_effect: None,
            typing_effect: None,
            last_frame_time: now,
            is_special_key_text: false,
            new_char_count: 0,
            last_key: None,
        }
    }

    /// The frame that is on screen: the idle or the typing frame, by state.
    pub open spec fn current_frame(self) -> usize {
        match self.animation_state {
            AnimationState::Idle => self.idle_frame,
            AnimationState::Typing => self.typing_frame,
        }
    }

    /// The state after the key event `key` at time `now`. A modifier key
    /// changes nothing. Any other key is accepted: it stamps the time,
    /// ends a fade, updates the text, enters `Typing` (restarting the typing
    /// frames only when coming from `Idle`), starts a new materialize
    /// overlay, and is remembered as the latest key.
    pub open spec fn after_key(self, key: Seq<char>, now: u64) -> AppView {
        if is_ignored_key(key) {
            self
        } else {
            let resumes = self.animation_state == AnimationState::Typing;
            AppView {
                animation_state: AnimationState::Typing,
                typing_frame: if resumes {
                    self.typing_frame
                } else {
                    0
                },
                last_keypress_time: now,
                typed_text: text_after_key(self.typed_text, self.is_special_key_text, key),
                last_typing_frame_time: if resumes {
                    self.last_typing_frame_time
                } else {
                    now
                },
                fade_effect: None,
                typing_effect: Some(
                    Overlay::fresh(OverlayKind::Materialize, TYPING_EFFECT_DURATION),
                ),
                is_special_key_text: is_special_key(key),
                new_char_count: new_chars_of_key(key) as usize,
                last_key: Some(key),
                ..self
            }
        }
    }

    /// The tick counter and the scanline after one more tick: the counter
    /// wraps, and the scanline moves one step in its cycle on every third
    /// count.
    pub open spec fn counted(self) -> AppView {
        let frame_count = if self.frame_count == u64::MAX {
            0u64
        } else {
            (self.frame_count + 1) as u64
        };
        AppView {
            frame_count,
            scanline_offset: if frame_count % SCANLINE_STRIDE == 0 {
                ((self.scanline_offset + 1) % (SCANLINE_PERIOD as int)) as u16
            } else {
                self.scanline_offset
            },
            ..self
        }
    }

    /// Whether a tick at `now` finds the last accepted key still within
    /// the linger time.
    pub open spec fn lingers(self, now: u64) -> bool {
        span(now, self.last_keypress_time) < TYPING_LINGER_DURATION
    }

    /// A tick in `Typing`: the typing frame moves on once its time is up,
    /// and once the linger time has passed since the last key the state
    /// returns to `Idle` on the idle frame `pick`, with a new fade-out.
    pub open spec fn typing_step(self, now: u64, pick: usize) -> AppView {
        let advance = span(now, self.last_typing_frame_time) >= TYPING_ANIMATION_DURATION;
        let stay = self.lingers(now);
        AppView {
            animation_state: if stay {
                AnimationState::Typing
            } else {
                AnimationState::Idle
            },
            typing_frame: if advance {
                next_frame(self.typing_frame, TYPING_FRAME_COUNT)
            } else {
                self.typing_frame
            },
            last_typing_frame_time: if advance {
                now
            } else {
                self.last_typing_frame_time
            },
            idle_frame: if stay {
                self.idle_frame
            } else {
                pick
            },
            last_idle_frame_time: if stay {
                self.last_idle_frame_time
            } else {
                now
            },
            fade_effect: if stay {
                self.fade_effect
            } else {
                Some(Overlay::fresh(OverlayKind::Fade, FADE_OUT_DURATION))
            },
            ..self
        }
    }

    /// Whether a fade-out is present and has run out.
    pub open spec fn fade_finished(self) -> bool {
        self.fade_effect matches Some(fade) && fade.is_done()
    }

    /// A tick in `Idle`: the idle frame moves on once its time is up, and a
    /// fade-out that has run out takes the text with it.
    pub open spec fn idle_step(self, now: u64) -> AppView {
        let advance = span(now, self.last_idle_frame_time) >= IDLE_ANIMATION_DURATION;
        let faded = self.fade_finished();
        AppView {
            idle_frame: if advance {
                next_frame(self.idle_frame, IDLE_FRAME_COUNT)
            } else {
                self.idle_frame
            },
            last_idle_frame_time: if advance {
                now
            } else {
                self.last_idle_frame_time
            },
            typed_text: if faded {
                Seq::empty()
            } else {
                self.typed_text
            },
            fade_effect: if faded {
                None
            } else {
                self.fade_effect
            },
            ..self
        }
    }

    /// The state after a clock tick at `now`, where `pick` is the idle
    /// frame to show should this tick end the typing.
    pub open spec fn after_tick(self, now: u64, pick: usize) -> AppView {
        match self.animation_state {
            AnimationState::Typing => self.counted().typing_step(now, pick),
            AnimationState::Idle => self.counted().idle_step(now),
        }
    }

    /// Whether the materialize overlay counts down in a frame: there is
    /// text, the overlay is still running, and the new characters are in
    /// view.
    pub open spec fn typing_effect_runs(self, new_chars_in_view: bool) -> bool {
        &&& self.typed_text.len() > 0
        &&& new_chars_in_view
        &&& self.typing_effect matches Some(typing)
        &&& !typing.is_done()
    }

    /// Whether the fade-out counts down in a frame: there is text and the
    /// overlay is still running.
    pub open spec fn fade_effect_runs(self) -> bool {
        &&& self.typed_text.len() > 0
        &&& self.fade_effect matches Some(fade)
        &&& !fade.is_done()
    }

    /// The overlays that count down in a frame, and which of them do so
    /// for the first time since they were started.
    pub open spec fn effects_run(self, new_chars_in_view: bool) -> EffectsRun {
        EffectsRun {
            typing: self.typing_effect_runs(new_chars_in_view),
            typing_restarts: self.typing_effect_runs(new_chars_in_view)
                && !self.typing_effect->0.has_started(),
            fade: self.fade_effect_runs(),
            fade_restarts: self.fade_effect_runs() && !self.fade_effect->0.has_started(),
        }
    }

    /// The state after a frame was painted `elapsed` milliseconds after
    /// the one before: each overlay that runs has counted down by that
    /// much.
    pub open spec fn after_paint(self, elapsed: u32, new_chars_in_view: bool) -> AppView {
        AppView {
            typing_effect: if self.typing_effect_runs(new_chars_in_view) {
                Some(self.typing_effect->0.after(elapsed))
            } else {
                self.typing_effect
            },
            fade_effect: if self.fade_effect_runs() {
                Some(self.fade_effect->0.after(elapsed))
            } else {
                self.fade_effect
            },
            ..self
        }
    }

    /// Whether the image has to be drawn again for a terminal of `size`:
    /// the size, the animation state, the frame on screen or the text
    /// differs from what was last drawn.
    pub open spec fn needs_redraw(self, size: (u16, u16)) -> bool {
        ||| self.last_terminal_size != size
        ||| self.last_rendered_state != Some(self.animation_state)
        ||| self.last_rendered_frame != self.current_frame()
        ||| self.last_rendered_text != self.typed_text
    }

    /// The state after the image was drawn for a terminal of `size`: the
    /// snapshot holds what is on screen now.
    pub open spec fn rendered(self, size: (u16, u16)) -> AppView {
        AppView {
            last_rendered_state: Some(self.animation_state),
            last_rendered_frame: self.current_frame(),
            last_rendered_text: self.typed_text,
            last_terminal_size: size,
            ..self
        }
    }
}

/// One thing that happens to the controller.
pub enum Event {
    /// A key event with its display string, at time `now`.
    Key { key: Seq<char>, now: u64 },
    /// A clock tick at time `now`, with the idle frame drawn for it.
    Tick { now: u64, pick: usize },
    /// A painted frame, `elapsed` milliseconds after the one before.
    Paint { elapsed: u32, new_chars_in_view: bool },
    /// An image redraw for a terminal of `size`.
    Rendered { size: (u16, u16) },
}

impl Event {
    /// An event that the controller can meet: the idle frame drawn for a
    /// tick is one of the idle frames.
    pub open spec fn admissible(self) -> bool {
        self matches Event::Tick { pick, .. } ==> pick < IDLE_FRAME_COUNT
    }
}

impl AppView {
    /// The state after one event.
    pub open spec fn step(self, event: Event) -> AppView {
        match event {
            Event::Key { key, now } => self.after_key(key, now),
            Event::Tick { now, pick } => self.after_tick(now, pick),
            Event::Paint { elapsed, new_chars_in_view } => self.after_paint(
                elapsed,
                new_chars_in_view,
            ),
            Event::Rendered { size } => self.rendered(size),
        }
    }

    /// The state after a sequence of events, first to last.
    pub open spec fn run(self, events: Seq<Event>) -> AppView
        decreases events.len(),
    {
        if events.len() == 0 {
            self
        } else {
            self.run(events.drop_last()).step(events.last())
        }
    }

    /// Whether every tick among `events`, met in order from this state,
    /// comes before the linger time since the last accepted key has passed.
    pub open spec fn ticks_within_linger(self, events: Seq<Event>) -> bool
        decreases events.len(),
    {
        if events.len() == 0 {
            true
        } else {
            &&& self.ticks_within_linger(events.drop_last())
            &&& (events.last() matches Event::Tick { now, .. } ==> self.run(
                events.drop_last(),
            ).lingers(now))
        }
    }
}

/// The texts `keys` one after the other.
pub open spec fn joined(keys: Seq<Seq<char>>) -> Seq<char>
    decreases keys.len(),
{
    if keys.len() == 0 {
        Seq::empty()
    } else {
        joined(keys.drop_last()) + keys.last()
    }
}

/// The key events that the texts `keys` make, each at its time in
/// `times`.
pub open spec fn keys_at(keys: Seq<Seq<char>>, times: Seq<u64>) -> Seq<Event> {
    Seq::new(keys.len(), |i: int| Event::Key { key: keys[i], now: times[i] })
}

/// The frames painted `steps` milliseconds apart, one for each step, all
/// of them with the newest characters in view or all without.
pub open spec fn paints(steps: Seq<u32>, new_chars_in_view: bool) -> Seq<Event> {
    Seq::new(steps.len(), |i: int| Event::Paint { elapsed: steps[i], new_chars_in_view })
}

/// The sum of the steps.
pub open spec fn total_of(steps: Seq<u32>) -> int
    decreases steps.len(),
{
    if steps.len() == 0 {
        0
    } else {
        total_of(steps.drop_last()) + steps.last()
    }
}

/// The frame reached from `frame` after `steps` advances in a cycle of
/// `count` frames.
pub open spec fn frame_after(frame: usize, count: usize, steps: nat) -> usize
    decreases steps,
{
    if steps == 0 {
        frame
    } else {
        next_frame(frame_after(frame, count, (steps - 1) as nat), count)
    }
}

} // verus!
