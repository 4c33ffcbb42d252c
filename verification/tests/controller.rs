use tapwatch::clock::NANOS_PER_MILLI;
use tapwatch::clock::NANOS_PER_SEC;
use tapwatch::effect::Overlay;
use tapwatch::effect::OverlayKind;
use tapwatch::effect::FADE_OUT_DURATION;
use tapwatch::effect::TYPING_EFFECT_DURATION;
use tapwatch::state::AnimationState;
use tapwatch::state::App;
use tapwatch::state::IDLE_ANIMATION_DURATION;
use tapwatch::state::IDLE_FRAME_COUNT;
use tapwatch::state::MAX_TEXT_LENGTH;
use tapwatch::state::TYPING_ANIMATION_DURATION;
use tapwatch::state::TYPING_FRAME_COUNT;
use tapwatch::state::TYPING_LINGER_DURATION;

fn key(text: &str) -> String {
    String::from(text)
}

#[test]
fn new_controller_is_idle_and_zeroed() {
    let app = App::new_at(7);
    assert_eq!(app.animation_state, AnimationState::Idle);
    assert_eq!(app.typing_frame, 0);
    assert_eq!(app.idle_frame, 0);
    assert_eq!(app.last_keypress_time, 7);
    assert_eq!(app.last_typing_frame_time, 7);
    assert_eq!(app.last_idle_frame_time, 7);
    assert_eq!(app.last_frame_time, 7);
    assert_eq!(app.typed_text, "");
    assert!(!app.should_quit);
    assert_eq!(app.scanline_offset, 0);
    assert_eq!(app.frame_count, 0);
    assert_eq!(app.last_rendered_state, None);
    assert_eq!(app.last_rendered_frame, 0);
    assert_eq!(app.last_rendered_text, "");
    assert_eq!(app.last_terminal_size, (0, 0));
    assert_eq!(app.fade_effect, None);
    assert_eq!(app.typing_effect, None);
    assert!(!app.is_special_key_text);
    assert_eq!(app.new_char_count, 0);
    assert_eq!(app.last_key, None);
}

#[test]
fn latest_accepted_key_is_remembered() {
    let mut app = App::new_at(0);
    app.on_key_at(key("h"), 1);
    assert_eq!(app.last_key, Some(key("h")));
    app.on_key_at(key("⇧"), 2);
    assert_eq!(app.last_key, Some(key("h")));
    app.on_key_at(key("⏎"), 3);
    assert_eq!(app.last_key, Some(key("⏎")));
    assert_eq!(app.typed_text, "Enter");
    app.on_key_at(key("?12"), 4);
    assert_eq!(app.last_key, Some(key("?12")));
    app.tick_at(4 + TYPING_LINGER_DURATION, 0);
    app.advance_effects(1_000, true);
    app.tick_at(5 + TYPING_LINGER_DURATION, 0);
    assert_eq!(app.typed_text, "");
    assert_eq!(app.last_key, Some(key("?12")));
    let mut clocked = App::new();
    clocked.on_key(key("x"));
    assert_eq!(clocked.last_key, Some(key("x")));
}

#[test]
fn first_key_starts_typing() {
    let mut app = App::new_at(0);
    app.typing_frame = 5;
    app.on_key_at(key("h"), 1_000);
    assert_eq!(app.animation_state, AnimationState::Typing);
    assert_eq!(app.typing_frame, 0);
    assert_eq!(app.last_keypress_time, 1_000);
    assert_eq!(app.last_typing_frame_time, 1_000);
    assert_eq!(app.typed_text, "h");
    assert_eq!(app.new_char_count, 1);
    assert_eq!(
        app.typing_effect,
        Some(Overlay::start(OverlayKind::Materialize, TYPING_EFFECT_DURATION))
    );
}

#[test]
fn later_keys_keep_the_typing_frame() {
    let mut app = App::new_at(0);
    app.on_key_at(key("a"), 10);
    app.tick_at(10 + TYPING_ANIMATION_DURATION, 0);
    assert_eq!(app.typing_frame, 1);
    app.on_key_at(key("b"), 20 + TYPING_ANIMATION_DURATION);
    assert_eq!(app.typing_frame, 1);
    assert_eq!(app.last_typing_frame_time, 10 + TYPING_ANIMATION_DURATION);
    assert_eq!(app.last_keypress_time, 20 + TYPING_ANIMATION_DURATION);
    assert_eq!(app.typed_text, "ab");
}

#[test]
fn modifier_keys_change_nothing() {
    for modifier in ["⇧", "⌃", "⌥", "⌘"] {
        let mut app = App::new_at(3);
        app.on_key_at(key(modifier), 99);
        assert_eq!(app.animation_state, AnimationState::Idle);
        assert_eq!(app.typed_text, "");
        assert_eq!(app.last_keypress_time, 3);
        assert_eq!(app.typing_effect, None);
        assert!(App::is_ignored_key(modifier));
        assert!(!App::is_special_key(modifier));
    }
    assert!(!App::is_ignored_key("a"));
    assert!(!App::is_ignored_key(""));
}

#[test]
fn special_key_replaces_typed_text() {
    let mut app = App::new_at(0);
    for c in ["h", "e", "l", "l", "o"] {
        app.on_key_at(key(c), 1);
    }
    assert_eq!(app.typed_text, "hello");
    assert!(!app.is_special_key_text);
    app.on_key_at(key("⏎"), 2);
    assert_eq!(app.typed_text, "Enter");
    assert!(app.is_special_key_text);
    assert_eq!(app.new_char_count, 5);
}

#[test]
fn literal_key_discards_special_text() {
    let mut app = App::new_at(0);
    app.on_key_at(key("⏎"), 1);
    assert!(app.is_special_key_text);
    app.on_key_at(key("x"), 2);
    assert_eq!(app.typed_text, "x");
    assert!(!app.is_special_key_text);
    assert_eq!(app.new_char_count, 1);
}

#[test]
fn every_special_key_has_its_label() {
    let labels = [
        ("␣", "Space"),
        ("⏎", "Enter"),
        ("⇥", "Tab"),
        ("⌫", "Back"),
        ("⎋", "Esc"),
        ("⌦", "Del"),
        ("↑", "Up"),
        ("↓", "Down"),
        ("←", "Left"),
        ("→", "Right"),
        ("F1", "F1"),
        ("F2", "F2"),
        ("F3", "F3"),
        ("F4", "F4"),
        ("F5", "F5"),
        ("F6", "F6"),
        ("F7", "F7"),
        ("F8", "F8"),
        ("F9", "F9"),
        ("F10", "F10"),
        ("F11", "F11"),
        ("F12", "F12"),
    ];
    for (special, label) in labels {
        assert!(App::is_special_key(special), "{special}");
        assert_eq!(App::get_special_key_display(special), label);
        let mut app = App::new_at(0);
        app.on_key_at(key("abc"), 1);
        app.on_key_at(key(special), 2);
        assert_eq!(app.typed_text, label);
        assert!(app.is_special_key_text);
        assert_eq!(app.new_char_count, label.chars().count());
    }
    assert!(!App::is_special_key("F13"));
    assert!(!App::is_special_key("F0"));
    assert!(!App::is_special_key("F"));
    assert!(!App::is_special_key(" "));
    assert!(!App::is_special_key("a"));
    assert_eq!(App::get_special_key_display("a"), "a");
    assert_eq!(App::get_special_key_display("?77"), "?77");
}

#[test]
fn text_never_exceeds_the_cap() {
    let mut app = App::new_at(0);
    for i in 0..250u64 {
        let c = char::from(b'a' + (i % 26) as u8);
        app.on_key_at(c.to_string(), i);
        assert!(app.typed_text.chars().count() <= MAX_TEXT_LENGTH);
        assert_eq!(app.typed_text.chars().count(), std::cmp::min(i as usize + 1, MAX_TEXT_LENGTH));
    }
    let all: String = (0..250u64).map(|i| char::from(b'a' + (i % 26) as u8)).collect();
    assert_eq!(app.typed_text, all[150..]);
}

#[test]
fn overflow_drops_the_oldest_characters() {
    let mut app = App::new_at(0);
    app.on_key_at("x".repeat(99), 1);
    assert_eq!(app.typed_text.len(), 99);
    app.on_key_at(key("yz"), 2);
    assert_eq!(app.typed_text, format!("{}yz", "x".repeat(98)));
    assert_eq!(app.new_char_count, 2);
}

#[test]
fn long_key_keeps_its_own_tail() {
    let mut app = App::new_at(0);
    let long: String = (0..130).map(|i| char::from(b'0' + (i % 10) as u8)).collect();
    app.on_key_at(long.clone(), 1);
    assert_eq!(app.typed_text, long[30..]);
    assert_eq!(app.new_char_count, 130);
}

#[test]
fn cap_counts_characters_not_bytes() {
    let mut app = App::new_at(0);
    for i in 0..120u64 {
        app.on_key_at(key("é"), i);
    }
    assert_eq!(app.typed_text.chars().count(), MAX_TEXT_LENGTH);
    assert_eq!(app.typed_text, "é".repeat(100));
    app.on_key_at(key("z"), 200);
    assert_eq!(app.typed_text, format!("{}z", "é".repeat(99)));
}

#[test]
fn empty_key_is_accepted_and_adds_nothing() {
    let mut app = App::new_at(0);
    app.on_key_at(key(""), 5);
    assert_eq!(app.animation_state, AnimationState::Typing);
    assert_eq!(app.typed_text, "");
    assert_eq!(app.new_char_count, 0);
    assert_eq!(app.last_keypress_time, 5);
}

#[test]
fn typing_lingers_until_the_linger_time() {
    let mut app = App::new_at(0);
    app.on_key_at(key("a"), 1_000);
    app.tick_at(1_000 + TYPING_LINGER_DURATION - 1, 3);
    assert_eq!(app.animation_state, AnimationState::Typing);
    assert_eq!(app.fade_effect, None);
    app.tick_at(1_000 + TYPING_LINGER_DURATION, 3);
    assert_eq!(app.animation_state, AnimationState::Idle);
    assert_eq!(app.idle_frame, 3);
    assert_eq!(app.last_idle_frame_time, 1_000 + TYPING_LINGER_DURATION);
    assert_eq!(app.fade_effect, Some(Overlay::start(OverlayKind::Fade, FADE_OUT_DURATION)));
    assert_eq!(app.typed_text, "a");
}

#[test]
fn keys_within_the_linger_window_keep_typing() {
    let mut app = App::new_at(0);
    let mut now = 0u64;
    for i in 0..20u64 {
        now = i * (TYPING_LINGER_DURATION - NANOS_PER_MILLI);
        app.on_key_at(key("k"), now);
        app.tick_at(now + TYPING_LINGER_DURATION - 1, 0);
        assert_eq!(app.animation_state, AnimationState::Typing);
    }
    app.tick_at(now + TYPING_LINGER_DURATION, 0);
    assert_eq!(app.animation_state, AnimationState::Idle);
}

#[test]
fn tick_with_an_earlier_time_counts_no_time() {
    let mut app = App::new_at(5 * NANOS_PER_SEC);
    app.on_key_at(key("a"), 10 * NANOS_PER_SEC);
    app.tick_at(0, 1);
    assert_eq!(app.animation_state, AnimationState::Typing);
    assert_eq!(app.typing_frame, 0);
    assert_eq!(app.last_typing_frame_time, 10 * NANOS_PER_SEC);
}

#[test]
fn typing_frame_cycles_through_all_frames() {
    let mut app = App::new_at(0);
    let mut now = 0u64;
    app.on_key_at(key("a"), now);
    let mut seen = Vec::new();
    for _ in 0..(3 * TYPING_FRAME_COUNT) {
        seen.push(app.typing_frame);
        now += TYPING_ANIMATION_DURATION;
        app.on_key_at(key("a"), now);
        app.tick_at(now, 0);
        assert!(app.typing_frame < TYPING_FRAME_COUNT);
    }
    let expected: Vec<usize> = (0..3 * TYPING_FRAME_COUNT).map(|i| i % TYPING_FRAME_COUNT).collect();
    assert_eq!(seen, expected);
}

#[test]
fn typing_frame_waits_for_its_time() {
    let mut app = App::new_at(0);
    app.on_key_at(key("a"), 0);
    app.tick_at(TYPING_ANIMATION_DURATION - 1, 0);
    assert_eq!(app.typing_frame, 0);
    app.tick_at(TYPING_ANIMATION_DURATION, 0);
    assert_eq!(app.typing_frame, 1);
    assert_eq!(app.last_typing_frame_time, TYPING_ANIMATION_DURATION);
    app.tick_at(2 * TYPING_ANIMATION_DURATION - 1, 0);
    assert_eq!(app.typing_frame, 1);
}

#[test]
fn idle_frame_advances_every_ten_seconds() {
    let mut app = App::new_at(0);
    app.tick_at(IDLE_ANIMATION_DURATION - 1, 5);
    assert_eq!(app.idle_frame, 0);
    let mut now = 0u64;
    for i in 1..=(2 * IDLE_FRAME_COUNT) {
        now += IDLE_ANIMATION_DURATION;
        app.tick_at(now, 5);
        assert_eq!(app.idle_frame, i % IDLE_FRAME_COUNT);
        assert_eq!(app.last_idle_frame_time, now);
        assert_eq!(app.animation_state, AnimationState::Idle);
    }
}

#[test]
fn tick_counts_frames_and_moves_the_scanline() {
    let mut app = App::new_at(0);
    for i in 1..=130u64 {
        app.tick_at(i, 0);
        assert_eq!(app.frame_count, i);
        assert_eq!(u64::from(app.scanline_offset), (i / 3) % 20);
    }
    let mut wrapping = App::new_at(0);
    wrapping.frame_count = u64::MAX;
    wrapping.tick_at(1, 0);
    assert_eq!(wrapping.frame_count, 0);
    assert_eq!(wrapping.scanline_offset, 1);
}

#[test]
fn fade_runs_out_and_clears_the_text() {
    let mut app = App::new_at(0);
    app.on_key_at(key("hi"), 0);
    app.tick_at(TYPING_LINGER_DURATION, 2);
    assert!(app.fade_effect.is_some());
    let ran = app.advance_effects(500, true);
    assert!(ran.fade);
    assert!(ran.fade_restarts);
    app.tick_at(TYPING_LINGER_DURATION + 1, 2);
    assert_eq!(app.typed_text, "hi");
    let ran = app.advance_effects(299, true);
    assert!(ran.fade);
    assert!(!ran.fade_restarts);
    app.tick_at(TYPING_LINGER_DURATION + 2, 2);
    assert_eq!(app.typed_text, "hi");
    assert_eq!(app.fade_effect.unwrap().remaining, 1);
    app.advance_effects(1, true);
    assert!(app.fade_effect.unwrap().done());
    app.tick_at(TYPING_LINGER_DURATION + 3, 2);
    assert_eq!(app.typed_text, "");
    assert_eq!(app.fade_effect, None);
    let ran = app.advance_effects(10, true);
    assert!(!ran.fade);
    assert!(!ran.typing);
}

#[test]
fn key_during_fade_cancels_the_fade() {
    let mut app = App::new_at(0);
    app.on_key_at(key("a"), 0);
    app.tick_at(TYPING_LINGER_DURATION, 0);
    app.advance_effects(100, true);
    assert!(app.fade_effect.is_some());
    app.on_key_at(key("b"), TYPING_LINGER_DURATION + 5);
    assert_eq!(app.fade_effect, None);
    assert_eq!(app.animation_state, AnimationState::Typing);
    assert_eq!(app.typed_text, "ab");
    assert_eq!(app.typing_frame, 0);
}

#[test]
fn materialize_overlay_restarts_on_every_key() {
    let mut app = App::new_at(0);
    app.on_key_at(key("a"), 0);
    let ran = app.advance_effects(100, true);
    assert!(ran.typing);
    assert!(ran.typing_restarts);
    assert!(!ran.fade);
    assert_eq!(app.typing_effect.unwrap().remaining, 50);
    app.on_key_at(key("b"), 1);
    assert_eq!(app.typing_effect.unwrap().remaining, TYPING_EFFECT_DURATION);
    let ran = app.advance_effects(200, false);
    assert!(!ran.typing);
    assert_eq!(app.typing_effect.unwrap().remaining, TYPING_EFFECT_DURATION);
    app.advance_effects(200, true);
    assert!(app.typing_effect.unwrap().done());
    let ran = app.advance_effects(1, true);
    assert!(!ran.typing);
}

#[test]
fn overlays_do_not_run_without_text() {
    let mut app = App::new_at(0);
    app.on_key_at(key(""), 0);
    app.tick_at(TYPING_LINGER_DURATION, 0);
    assert!(app.fade_effect.is_some());
    let ran = app.advance_effects(1_000, true);
    assert!(!ran.fade);
    assert!(!ran.typing);
    assert_eq!(app.fade_effect.unwrap().remaining, FADE_OUT_DURATION);
}

#[test]
fn end_to_end_hello_then_idle_then_cleared() {
    let mut app = App::new_at(0);
    let mut now = 0u64;
    for c in ["h", "e", "l", "l", "o"] {
        now += 2 * NANOS_PER_SEC;
        app.on_key_at(key(c), now);
        assert_eq!(app.animation_state, AnimationState::Typing);
        app.tick_at(now + NANOS_PER_SEC, 4);
        assert_eq!(app.animation_state, AnimationState::Typing);
    }
    assert_eq!(app.typed_text, "hello");
    now += TYPING_LINGER_DURATION + NANOS_PER_MILLI;
    app.tick_at(now, 4);
    assert_eq!(app.animation_state, AnimationState::Idle);
    assert_eq!(app.idle_frame, 4);
    assert_eq!(app.typed_text, "hello");
    let mut spent = 0u32;
    while spent < FADE_OUT_DURATION {
        app.advance_effects(33, true);
        spent += 33;
        now += 33 * NANOS_PER_MILLI;
        app.tick_at(now, 4);
    }
    assert_eq!(app.typed_text, "");
    assert_eq!(app.animation_state, AnimationState::Idle);
    assert_eq!(app.fade_effect, None);
}

#[test]
fn quit_sets_the_flag() {
    let mut app = App::new_at(0);
    app.quit();
    assert!(app.should_quit);
    assert_eq!(app.animation_state, AnimationState::Idle);
}

#[test]
fn elapsed_measures_from_the_last_frame() {
    let mut app = App::new_at(100);
    assert_eq!(app.elapsed_at(350), 250);
    assert_eq!(app.last_frame_time, 350);
    assert_eq!(app.elapsed_at(300), 0);
    assert_eq!(app.last_frame_time, 300);
}

#[test]
fn redraw_needed_until_rendered() {
    let mut app = App::new_at(0);
    assert!(app.needs_image_redraw((80, 24)));
    assert!(app.needs_image_redraw((80, 24)));
    app.mark_rendered((80, 24));
    assert!(!app.needs_image_redraw((80, 24)));
    assert!(!app.needs_image_redraw((80, 24)));
    assert_eq!(app.last_rendered_state, Some(AnimationState::Idle));
    assert_eq!(app.last_terminal_size, (80, 24));
}

#[test]
fn dirty_check_does_not_commit() {
    let mut app = App::new_at(0);
    app.mark_rendered((80, 24));
    app.on_key_at(key("a"), 1);
    let first = app.needs_image_redraw((80, 24));
    let second = app.needs_image_redraw((80, 24));
    assert!(first);
    assert_eq!(first, second);
    assert_eq!(app.last_rendered_text, "");
    assert_eq!(app.last_rendered_state, Some(AnimationState::Idle));
}

#[test]
fn each_visible_change_needs_a_redraw() {
    let mut app = App::new_at(0);
    app.mark_rendered((80, 24));
    assert!(app.needs_image_redraw((81, 24)));
    assert!(app.needs_image_redraw((80, 25)));

    let mut state_changed = App::new_at(0);
    state_changed.on_key_at(key(""), 0);
    state_changed.typing_effect = None;
    state_changed.animation_state = AnimationState::Idle;
    state_changed.mark_rendered((80, 24));
    state_changed.animation_state = AnimationState::Typing;
    assert!(state_changed.needs_image_redraw((80, 24)));

    let mut frame_changed = App::new_at(0);
    frame_changed.mark_rendered((80, 24));
    frame_changed.tick_at(IDLE_ANIMATION_DURATION, 0);
    assert_eq!(frame_changed.idle_frame, 1);
    assert!(frame_changed.needs_image_redraw((80, 24)));
    frame_changed.mark_rendered((80, 24));
    assert_eq!(frame_changed.last_rendered_frame, 1);
    assert!(!frame_changed.needs_image_redraw((80, 24)));

    let mut text_changed = App::new_at(0);
    text_changed.on_key_at(key("a"), 0);
    text_changed.mark_rendered((80, 24));
    assert!(!text_changed.needs_image_redraw((80, 24)));
    text_changed.on_key_at(key("b"), 1);
    assert!(text_changed.needs_image_redraw((80, 24)));
    assert_eq!(text_changed.current_frame(), 0);
}

#[test]
fn hidden_frame_does_not_need_a_redraw() {
    let mut app = App::new_at(0);
    app.on_key_at(key("a"), 0);
    app.mark_rendered((80, 24));
    app.idle_frame = 6;
    assert!(!app.needs_image_redraw((80, 24)));
    app.typing_frame = 6;
    assert!(app.needs_image_redraw((80, 24)));
}

#[test]
fn clocked_controller_follows_the_same_rules() {
    let mut app = App::new();
    assert_eq!(app.animation_state, AnimationState::Idle);
    assert_eq!(app.typed_text, "");
    app.on_key(key("h"));
    app.on_key(key("⇧"));
    app.on_key(key("i"));
    assert_eq!(app.animation_state, AnimationState::Typing);
    assert_eq!(app.typed_text, "hi");
    assert!(app.last_keypress_time >= app.last_typing_frame_time);
    app.tick();
    assert_eq!(app.animation_state, AnimationState::Typing);
    assert_eq!(app.frame_count, 1);
    let first = app.get_elapsed();
    let second = app.get_elapsed();
    assert!(app.last_frame_time >= first);
    assert!(second < NANOS_PER_SEC);
    let fresh = App::default();
    assert_eq!(fresh.animation_state, AnimationState::Idle);
    assert_eq!(fresh.last_keypress_time, fresh.last_frame_time);
}

#[test]
fn random_idle_frames_cover_the_range_evenly() {
    let mut app = App::new();
    let start = std::time::Instant::now();
    while start.elapsed() < std::time::Duration::from_millis(3_050) {
        std::hint::spin_loop();
    }
    let draws = 8_000usize;
    let mut counts = [0usize; IDLE_FRAME_COUNT];
    for _ in 0..draws {
        app.on_key(key("a"));
        app.last_keypress_time = 0;
        app.tick();
        assert_eq!(app.animation_state, AnimationState::Idle);
        assert!(app.idle_frame < IDLE_FRAME_COUNT);
        counts[app.idle_frame] += 1;
    }
    let expected = (draws / IDLE_FRAME_COUNT) as f64;
    let sigma = (draws as f64 * (1.0 / 8.0) * (7.0 / 8.0)).sqrt();
    for count in counts {
        assert!((count as f64 - expected).abs() < 6.0 * sigma, "{counts:?}");
    }
}
