//! The animation controller: one state value that key events and clock
//! ticks move between `Idle` and `Typing`, with its text trace, its overlay
//! effects and the snapshot of what was last drawn.

use crate::clock::time_between;
use crate::clock::span;
use crate::clock::Clock;
use crate::effect::Overlay;
use crate::model::AppView;
use crate::rng::random_below;
use crate::text::same_text;
use vstd::prelude::*;
use vstd::string::*;

verus! {

/// Time between two frames of the typing animation, in nanoseconds.
pub const TYPING_ANIMATION_DURATION: u64 = 250_000_000;

/// Time between two frames of the idle animation, in nanoseconds.
pub const IDLE_ANIMATION_DURATION: u64 = 10_000_000_000;

/// Number of frames of the typing animation.
pub const TYPING_FRAME_COUNT: usize = 8;

/// Number of frames of the idle animation.
pub const IDLE_FRAME_COUNT: usize = 8;

/// How long the typing animation lingers after the last key, in
/// nanoseconds.
pub const TYPING_LINGER_DURATION: u64 = 3_000_000_000;

/// Most characters that the text trace holds.
pub const MAX_TEXT_LENGTH: usize = 100;

/// Length of the scanline cycle.
pub const SCANLINE_PERIOD: u16 = 20;

/// Ticks between two steps of the scanline.
pub const SCANLINE_STRIDE: u64 = 3;

/// The two visible animation states.
#[derive(Debug, Clone, Copy, PartialEq, Eq, Structural)]
pub enum AnimationState {
    Idle,
    Typing,
}

/// A modifier key by its display string: it leaves the state untouched.
pub open spec fn is_ignored_key(key: Seq<char>) -> bool {
    key == "⇧"@ || key == "⌃"@ || key == "⌥"@ || key == "⌘"@
}

/// A function key by its display string, `F1` to `F12`.
pub open spec fn is_function_key(key: Seq<char>) -> bool {
    key == "F1"@ || key == "F2"@ || key == "F3"@ || key == "F4"@ || key == "F5"@ || key == "F6"@
        || key == "F7"@ || key == "F8"@ || key == "F9"@ || key == "F10"@ || key == "F11"@ || key
        == "F12"@
}

/// A key whose label replaces the text instead of being appended to it.
pub open spec fn is_special_key(key: Seq<char>) -> bool {
    key == "␣"@ || key == "⏎"@ || key == "⇥"@ || key == "⌫"@ || key == "⎋"@ || key == "⌦"@ || key
        == "↑"@ || key == "↓"@ || key == "←"@ || key == "→"@ || is_function_key(key)
}

/// The label shown for a special key; any other string stands for itself.
pub open spec fn special_key_label(key: Seq<char>) -> Seq<char> {
    if key == "␣"@ {
        "Space"@
    } else if key == "⏎"@ {
        "Enter"@
    } else if key == "⇥"@ {
        "Tab"@
    } else if key == "⌫"@ {
        "Back"@
    } else if key == "⎋"@ {
        "Esc"@
    } else if key == "⌦"@ {
        "Del"@
    } else if key == "↑"@ {
        "Up"@
    } else if key == "↓"@ {
        "Down"@
    } else if key == "←"@ {
        "Left"@
    } else if key == "→"@ {
        "Right"@
    } else {
        key
    }
}

/// The last `cap` characters of `text`, or all of it where it is shorter.
pub open spec fn keep_tail(text: Seq<char>, cap: nat) -> Seq<char> {
    if text.len() > cap {
        text.subrange(text.len() - cap, text.len() as int)
    } else {
        text
    }
}

/// The text trace after an accepted key: the label of a special key
/// replaces it; a literal key is appended, to nothing where a label stood,
/// and what then exceeds the cap is dropped from the front.
pub open spec fn text_after_key(text: Seq<char>, holds_label: bool, key: Seq<char>) -> Seq<char> {
    if is_special_key(key) {
        special_key_label(key)
    } else if holds_label {
        keep_tail(key, MAX_TEXT_LENGTH as nat)
    } else {
        keep_tail(text + key, MAX_TEXT_LENGTH as nat)
    }
}

/// The number of characters that an accepted key brought in.
pub open spec fn new_chars_of_key(key: Seq<char>) -> nat {
    if is_special_key(key) {
        special_key_label(key).len()
    } else {
        key.len()
    }
}

/// The frame that follows `frame` in a cycle of `count` frames.
pub open spec fn next_frame(frame: usize, count: usize) -> usize {
    ((frame + 1) % (count as int)) as usize
}

/// Which overlays counted down in a painted frame, and which of them did
/// so for the first time since they were started.
#[derive(Debug, Clone, Copy, PartialEq, Eq, Structural)]
pub struct EffectsRun {
    /// The materialize overlay ran.
    pub typing: bool,
    /// The materialize overlay ran for the first time.
    pub typing_restarts: bool,
    /// The fade-out ran.
    pub fade: bool,
    /// The fade-out ran for the first time.
    pub fade_restarts: bool,
}

/// The animation controller.
pub struct App {
    /// Current animation state.
    pub animation_state: AnimationState,
    /// Current frame of the typing animation.
    pub typing_frame: usize,
    /// Current frame of the idle animation.
    pub idle_frame: usize,
    /// Time of the last accepted key.
    pub last_keypress_time: u64,
    /// The text trace.
    pub typed_text: String,
    /// Time of the last change of the typing frame.
    pub last_typing_frame_time: u64,
    /// Time of the last change of the idle frame.
    pub last_idle_frame_time: u64,
    /// Whether a quit was requested.
    pub should_quit: bool,
    /// Offset of the scanline.
    pub scanline_offset: u16,
    /// Number of ticks so far, wrapping.
    pub frame_count: u64,
    /// Animation state at the last image redraw, if there was one.
    pub last_rendered_state: Option<AnimationState>,
    /// Frame index at the last image redraw.
    pub last_rendered_frame: usize,
    /// Text at the last image redraw.
    pub last_rendered_text: String,
    /// Terminal size at the last image redraw.
    pub last_terminal_size: (u16, u16),
    /// The fade-out overlay, while there is one.
    pub fade_effect: Option<Overlay>,
    /// The materialize overlay of the latest key, once there was one.
    pub typing_effect: Option<Overlay>,
    /// Time of the last frame, from which elapsed time is measured.
    pub last_frame_time: u64,
    /// Whether the text is the label of a special key.
    pub is_special_key_text: bool,
    /// Number of characters that the latest key brought in.
    pub new_char_count: usize,
    /// The display string of the latest accepted key, once there was one.
    pub last_key: Option<String>,
    /// The clock that stamps the events which carry no time of their own.
    pub clock: Clock,
}

impl View for App {
    type V = AppView;

    open spec fn view(&self) -> AppView {
        AppView {
            animation_state: self.animation_state,
            typing_frame: self.typing_frame,
            idle_frame: self.idle_frame,
            last_keypress_time: self.last_keypress_time,
            typed_text: self.typed_text@,
            last_typing_frame_time: self.last_typing_frame_time,
            last_idle_frame_time: self.last_idle_frame_time,
            should_quit: self.should_quit,
            scanline_offset: self.scanline_offset,
            frame_count: self.frame_count,
            last_rendered_state: self.last_rendered_state,
            last_rendered_frame: self.last_rendered_frame,
            last_rendered_text: self.last_rendered_text@,
            last_terminal_size: self.last_terminal_size,
            fade_effect: self.fade_effect,
            typing_effect: self.typing_effect,
            last_frame_time: self.last_frame_time,
            is_special_key_text: self.is_special_key_text,
            new_char_count: self.new_char_count,
            last_key: match self.last_key {
                Some(key) => Some(key@),
                None => None,
            },
        }
    }
}

impl App {
    /// The invariant of the controller, which every operation keeps.
    pub open spec fn wf(&self) -> bool {
        self@.wf()
    }

    /// Whether the invariant of the controller holds.
    pub fn is_valid(&self) -> (valid: bool)
        ensures
            valid == self.wf(),
    {
        let fade_ok = match self.fade_effect {
            Some(fade) => fade.remaining <= fade.total && self.animation_state
                == AnimationState::Idle,
            None => true,
        };
        let typing_ok = match self.typing_effect {
            Some(typing) => typing.remaining <= typing.total,
            None => self.animation_state == AnimationState::Idle,
        };
        self.typing_frame < TYPING_FRAME_COUNT && self.idle_frame < IDLE_FRAME_COUNT
            && self.typed_text.as_str().unicode_len() <= MAX_TEXT_LENGTH && self.scanline_offset
            < SCANLINE_PERIOD && fade_ok && typing_ok
    }

    /// A controller in its initial state, with every timer at `now`.
    pub fn new_at(now: u64) -> (app: App)
        ensures
            app@ == AppView::initial(now),
            app.wf(),
    {
        App {
            animation_state: AnimationState::Idle,
            typing_frame: 0,
            idle_frame: 0,
            last_keypress_time: now,
            typed_text: String::new(),
            last_typing_frame_time: now,
            last_idle_frame_time: now,
            should_quit: false,
            scanline_offset: 0,
            frame_count: 0,
            last_rendered_state: None,
            last_rendered_frame: 0,
            last_rendered_text: String::new(),
            last_terminal_size: (0, 0),
            fade_effect: None,
            typing_effect: None,
            last_frame_time: now,
            is_special_key_text: false,
            new_char_count: 0,
            last_key: None,
            clock: Clock::start(),
        }
    }

    /// Whether `key` is a modifier key, which is ignored.
    pub fn is_ignored_key(key: &str) -> (b: bool)
        ensures
            b == is_ignored_key(key@),
    {
        same_text(key, "⇧") || same_text(key, "⌃") || same_text(key, "⌥") || same_text(key, "⌘")
    }

    /// Whether `key` is a special key, whose label replaces the text.
    pub fn is_special_key(key: &str) -> (b: bool)
        ensures
            b == is_special_key(key@),
    {
        same_text(key, "␣") || same_text(key, "⏎") || same_text(key, "⇥") || same_text(key, "⌫")
            || same_text(key, "⎋") || same_text(key, "⌦") || same_text(key, "↑") || same_text(
            key,
            "↓",
        ) || same_text(key, "←") || same_text(key, "→") || same_text(key, "F1") || same_text(
            key,
            "F2",
        ) || same_text(key, "F3") || same_text(key, "F4") || same_text(key, "F5") || same_text(
            key,
            "F6",
        ) || same_text(key, "F7") || same_text(key, "F8") || same_text(key, "F9") || same_text(
            key,
            "F10",
        ) || same_text(key, "F11") || same_text(key, "F12")
    }

    /// The label of a special key; any other string stands for itself.
    pub fn get_special_key_display<'a>(key: &'a str) -> (label: &'a str)
        ensures
            label@ == special_key_label(key@),
    {
        if same_text(key, "␣") {
            "Space"
        } else if same_text(key, "⏎") {
            "Enter"
        } else if same_text(key, "⇥") {
            "Tab"
        } else if same_text(key, "⌫") {
            "Back"
        } else if same_text(key, "⎋") {
            "Esc"
        } else if same_text(key, "⌦") {
            "Del"
        } else if same_text(key, "↑") {
            "Up"
        } else if same_text(key, "↓") {
            "Down"
        } else if same_text(key, "←") {
            "Left"
        } else if same_text(key, "→") {
            "Right"
        } else {
            key
        }
    }

    /// Handles the key event `key` at time `now`.
    pub fn on_key_at(&mut self, key: String, now: u64)
        requires
            old(self).wf(),
        ensures
            final(self)@ == old(self)@.after_key(key@, now),
            final(self).wf(),
            final(self).typed_text@.len() <= MAX_TEXT_LENGTH,
            final(self).clock == old(self).clock,
    {
        if App::is_ignored_key(key.as_str()) {
            return ;
        }
        self.last_keypress_time = now;
        self.fade_effect = None;
        if App::is_special_key(key.as_str()) {
            let display = String::from_str(App::get_special_key_display(key.as_str()));
            proof {
                lemma_label_is_short(key@);
            }
            self.new_char_count = display.as_str().unicode_len();
            self.typed_text = display;
            self.is_special_key_text = true;
        } else {
            if self.is_special_key_text {
                self.typed_text = String::new();
                self.is_special_key_text = false;
            }
            self.new_char_count = key.as_str().unicode_len();
            let ghost before = self.typed_text@;
            self.typed_text.append(key.as_str());
            assert(before.len() == 0 ==> before + key@ =~= key@);
            let len = self.typed_text.as_str().unicode_len();
            if len > MAX_TEXT_LENGTH {
                let kept = String::from_str(
                    self.typed_text.as_str().substring_char(len - MAX_TEXT_LENGTH, len),
                );
                self.typed_text = kept;
            }
        }
        if self.animation_state != AnimationState::Typing {
            self.animation_state = AnimationState::Typing;
            self.typing_frame = 0;
            self.last_typing_frame_time = now;
        }
        self.typing_effect = Some(Overlay::materialize());
        self.last_key = Some(key);
    }

    /// Advances the clock of the controller to `now`. `pick` is the idle
    /// frame to show should this tick end the typing.
    pub fn tick_at(&mut self, now: u64, pick: usize)
        requires
            old(self).wf(),
            pick < IDLE_FRAME_COUNT,
        ensures
            final(self)@ == old(self)@.after_tick(now, pick),
            final(self).wf(),
            final(self).typing_frame < TYPING_FRAME_COUNT,
            final(self).idle_frame < IDLE_FRAME_COUNT,
            final(self).clock == old(self).clock,
    {
        self.frame_count = self.frame_count.wrapping_add(1);
        if self.frame_count % SCANLINE_STRIDE == 0 {
            self.scanline_offset = (self.scanline_offset + 1) % SCANLINE_PERIOD;
        }
        match self.animation_state {
            AnimationState::Typing => {
                if time_between(now, self.last_typing_frame_time) >= TYPING_ANIMATION_DURATION {
                    self.last_typing_frame_time = now;
                    self.typing_frame = (self.typing_frame + 1) % TYPING_FRAME_COUNT;
                }
                if time_between(now, self.last_keypress_time) >= TYPING_LINGER_DURATION {
                    self.animation_state = AnimationState::Idle;
                    self.idle_frame = pick;
                    self.last_idle_frame_time = now;
                    self.fade_effect = Some(Overlay::fade_out());
                }
            },
            AnimationState::Idle => {
                if time_between(now, self.last_idle_frame_time) >= IDLE_ANIMATION_DURATION {
                    self.last_idle_frame_time = now;
                    self.idle_frame = (self.idle_frame + 1) % IDLE_FRAME_COUNT;
                }
                let faded = match &self.fade_effect {
                    Some(effect) => effect.done(),
                    None => false,
                };
                if faded {
                    self.typed_text = String::new();
                    self.fade_effect = None;
                }
            },
        }
    }

    /// A controller in its initial state, with every timer at the time of
    /// the call, which its own clock counts as zero or a little later.
    pub fn new() -> (app: App)
        ensures
            app.wf(),
            exists|now: u64| app@ == #[trigger] AppView::initial(now),
    {
        let clock = Clock::start();
        let now = clock.now();
        let mut app = App::new_at(now);
        app.clock = clock;
        app
    }

    /// Handles the key event `key`, stamped by the controller's clock.
    /// Whatever the time, the text, the special-key flag and the count of
    /// new characters are those that `after_key` gives.
    pub fn on_key(&mut self, key: String)
        requires
            old(self).wf(),
        ensures
            final(self).wf(),
            exists|now: u64| final(self)@ == #[trigger] old(self)@.after_key(key@, now),
            final(self).typed_text@ == old(self)@.after_key(key@, 0).typed_text,
            final(self).typed_text@.len() <= MAX_TEXT_LENGTH,
            final(self).is_special_key_text == old(self)@.after_key(key@, 0).is_special_key_text,
            final(self).new_char_count == old(self)@.after_key(key@, 0).new_char_count,
            final(self).animation_state == old(self)@.after_key(key@, 0).animation_state,
            final(self).typing_frame == old(self)@.after_key(key@, 0).typing_frame,
            final(self)@.last_key == old(self)@.after_key(key@, 0).last_key,
    {
        let now = self.clock.now();
        self.on_key_at(key, now);
    }

    /// Advances the clock of the controller to the time of the call; the
    /// idle frame for the end of typing is drawn at random.
    pub fn tick(&mut self)
        requires
            old(self).wf(),
        ensures
            final(self).wf(),
            exists|now: u64, pick: usize|
                pick < IDLE_FRAME_COUNT && final(self)@ == #[trigger] old(self)@.after_tick(
                    now,
                    pick,
                ),
            final(self).typing_frame < TYPING_FRAME_COUNT,
            final(self).idle_frame < IDLE_FRAME_COUNT,
            final(self).frame_count == old(self)@.counted().frame_count,
            final(self).scanline_offset == old(self)@.counted().scanline_offset,
    {
        let now = self.clock.now();
        let ends_typing = self.animation_state == AnimationState::Typing && time_between(
            now,
            self.last_keypress_time,
        ) >= TYPING_LINGER_DURATION;
        let pick = if ends_typing {
            random_below(IDLE_FRAME_COUNT)
        } else {
            self.idle_frame
        };
        self.tick_at(now, pick);
    }

    /// Requests the end of the render loop.
    pub fn quit(&mut self)
        ensures
            final(self)@ == (AppView { should_quit: true, ..old(self)@ }),
            final(self).clock == old(self).clock,
    {
        self.should_quit = true;
    }

    /// The time from the last frame to `now`; `now` becomes the time of
    /// the last frame.
    pub fn elapsed_at(&mut self, now: u64) -> (elapsed: u64)
        ensures
            elapsed == span(now, old(self).last_frame_time),
            final(self)@ == (AppView { last_frame_time: now, ..old(self)@ }),
            final(self).clock == old(self).clock,
    {
        let elapsed = time_between(now, self.last_frame_time);
        self.last_frame_time = now;
        elapsed
    }

    /// The time since the last frame by the controller's clock, which
    /// restarts the measure.
    pub fn get_elapsed(&mut self) -> (elapsed: u64)
        ensures
            exists|now: u64|
                elapsed == span(now, old(self).last_frame_time) && final(self)@ == (AppView {
                    last_frame_time: now,
                    ..old(self)@
                }),
    {
        let now = self.clock.now();
        let elapsed = self.elapsed_at(now);
        assert(elapsed == span(now, old(self).last_frame_time) && self@ == (AppView {
            last_frame_time: now,
            ..old(self)@
        }));
        elapsed
    }

    /// Counts the running overlays down by the `elapsed` milliseconds of
    /// one painted frame. `new_chars_in_view` says whether the frame shows
    /// the characters of the latest key. The result names the overlays
    /// that ran.
    pub fn advance_effects(&mut self, elapsed: u32, new_chars_in_view: bool) -> (ran: EffectsRun)
        requires
            old(self).wf(),
        ensures
            final(self)@ == old(self)@.after_paint(elapsed, new_chars_in_view),
            final(self).wf(),
            final(self).clock == old(self).clock,
            ran == old(self)@.effects_run(new_chars_in_view),
    {
        let mut ran = EffectsRun {
            typing: false,
            typing_restarts: false,
            fade: false,
            fade_restarts: false,
        };
        if self.typed_text.as_str().unicode_len() == 0 {
            return ran;
        }
        if new_chars_in_view {
            match self.typing_effect {
                Some(mut typing) => {
                    if !typing.done() {
                        ran.typing = true;
                        ran.typing_restarts = !typing.started();
                        typing.advance(elapsed);
                        self.typing_effect = Some(typing);
                    }
                },
                None => {},
            }
        }
        match self.fade_effect {
            Some(mut fade) => {
                if !fade.done() {
                    ran.fade = true;
                    ran.fade_restarts = !fade.started();
                    fade.advance(elapsed);
                    self.fade_effect = Some(fade);
                }
            },
            None => {},
        }
        ran
    }

    /// The frame that is on screen.
    pub fn current_frame(&self) -> (frame: usize)
        ensures
            frame == self@.current_frame(),
    {
        match self.animation_state {
            AnimationState::Idle => self.idle_frame,
            AnimationState::Typing => self.typing_frame,
        }
    }

    /// Whether what is on screen differs from what was last drawn, for a
    /// terminal of `terminal_size`. The state is left as it is.
    pub fn needs_image_redraw(&self, terminal_size: (u16, u16)) -> (needed: bool)
        ensures
            needed == self@.needs_redraw(terminal_size),
    {
        if self.last_terminal_size.0 != terminal_size.0 || self.last_terminal_size.1
            != terminal_size.1 {
            return true;
        }
        let same_state = match self.last_rendered_state {
            Some(state) => state == self.animation_state,
            None => false,
        };
        if !same_state {
            return true;
        }
        if self.last_rendered_frame != self.current_frame() {
            return true;
        }
        if !(self.last_rendered_text == self.typed_text) {
            return true;
        }
        false
    }

    /// Records what is on screen as drawn, for a terminal of
    /// `terminal_size`.
    pub fn mark_rendered(&mut self, terminal_size: (u16, u16))
        ensures
            final(self)@ == old(self)@.rendered(terminal_size),
            !final(self)@.needs_redraw(terminal_size),
            old(self).wf() ==> final(self).wf(),
            final(self).clock == old(self).clock,
    {
        self.last_rendered_state = Some(self.animation_state);
        self.last_rendered_frame = self.current_frame();
        self.last_rendered_text = self.typed_text.clone();
        self.last_terminal_size = terminal_size;
    }
}

impl Default for App {
    /// A controller in its initial state, as `App::new` makes it.
    fn default() -> (app: App)
        ensures
            app.wf(),
            exists|now: u64| app@ == #[trigger] AppView::initial(now),
    {
        App::new()
    }
}

/// The label of a special key has at most five characters.
pub proof fn lemma_label_is_short(key: Seq<char>)
    requires
        is_special_key(key),
    ensures
        1 <= special_key_label(key).len() <= 5,
{
    reveal_strlit("Space");
    reveal_strlit("Enter");
    reveal_strlit("Tab");
    reveal_strlit("Back");
    reveal_strlit("Esc");
    reveal_strlit("Del");
    reveal_strlit("Up");
    reveal_strlit("Down");
    reveal_strlit("Left");
    reveal_strlit("Right");
    reveal_strlit("F1");
    reveal_strlit("F2");
    reveal_strlit("F3");
    reveal_strlit("F4");
    reveal_strlit("F5");
    reveal_strlit("F6");
    reveal_strlit("F7");
    reveal_strlit("F8");
    reveal_strlit("F9");
    reveal_strlit("F10");
    reveal_strlit("F11");
    reveal_strlit("F12");
}

} // verus!
