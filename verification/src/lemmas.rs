//! What holds of the controller whatever happens to it: the bounds of
//! its text and frames, the way in and out of typing, the cycle of the
//! frames, and the dirty check.

use crate::clock::span;
use crate::effect::Overlay;
use crate::effect::OverlayKind;
use crate::effect::FADE_OUT_DURATION;
use crate::effect::TYPING_EFFECT_DURATION;
use crate::model::frame_after;
use crate::model::joined;
use crate::model::keys_at;
use crate::model::paints;
use crate::model::total_of;
use crate::model::AppView;
use crate::model::Event;
use crate::state::is_ignored_key;
use crate::state::is_special_key;
use crate::state::keep_tail;
use crate::state::lemma_label_is_short;
use crate::state::next_frame;
use crate::state::special_key_label;
use crate::state::AnimationState;
use crate::state::IDLE_FRAME_COUNT;
use crate::state::MAX_TEXT_LENGTH;
use crate::state::TYPING_ANIMATION_DURATION;
use crate::state::TYPING_FRAME_COUNT;
use crate::state::TYPING_LINGER_DURATION;
use vstd::arithmetic::div_mod::lemma_add_mod_noop;
use vstd::arithmetic::div_mod::lemma_mod_bound;
use vstd::arithmetic::div_mod::lemma_small_mod;
use vstd::prelude::*;

verus! {

/// What is kept of a text is its end: the kept part has the cap's length
/// or the text's, whichever is less, and the text is some dropped front
/// followed by the kept part.
pub proof fn lemma_keep_tail_is_suffix(text: Seq<char>, cap: nat)
    ensures
        keep_tail(text, cap).len() == if text.len() > cap {
            cap
        } else {
            text.len()
        },
        text == text.subrange(0, text.len() - keep_tail(text, cap).len()) + keep_tail(text, cap),
{
    let kept = keep_tail(text, cap);
    assert(text =~= text.subrange(0, text.len() - kept.len()) + kept);
}

/// After any key event the text is within the cap, whatever the state was
/// before.
pub proof fn lemma_key_bounds_text(state: AppView, key: Seq<char>, now: u64)
    requires
        state.typed_text.len() <= MAX_TEXT_LENGTH,
    ensures
        state.after_key(key, now).typed_text.len() <= MAX_TEXT_LENGTH,
{
    if is_special_key(key) {
        lemma_label_is_short(key);
    }
}

/// An accepted special key leaves exactly its label as the text and marks
/// the text as a label, whatever was typed before.
pub proof fn lemma_special_key_replaces_text(state: AppView, key: Seq<char>, now: u64)
    requires
        !is_ignored_key(key),
        is_special_key(key),
    ensures
        state.after_key(key, now).typed_text == special_key_label(key),
        state.after_key(key, now).is_special_key_text,
        state.after_key(key, now).new_char_count == special_key_label(key).len(),
{
    lemma_label_is_short(key);
}

/// An accepted literal key that follows a label discards the label: the
/// text becomes the key's own characters (their last `MAX_TEXT_LENGTH`,
/// should there be more), and is no longer marked as a label.
pub proof fn lemma_literal_key_discards_label(state: AppView, key: Seq<char>, now: u64)
    requires
        state.is_special_key_text,
        !is_ignored_key(key),
        !is_special_key(key),
    ensures
        state.after_key(key, now).typed_text == keep_tail(key, MAX_TEXT_LENGTH as nat),
        key.len() <= MAX_TEXT_LENGTH ==> state.after_key(key, now).typed_text == key,
        !state.after_key(key, now).is_special_key_text,
{
}

/// An accepted literal key that follows literal text is appended to it.
pub proof fn lemma_literal_key_appends(state: AppView, key: Seq<char>, now: u64)
    requires
        !state.is_special_key_text,
        !is_ignored_key(key),
        !is_special_key(key),
    ensures
        state.after_key(key, now).typed_text == keep_tail(
            state.typed_text + key,
            MAX_TEXT_LENGTH as nat,
        ),
        state.typed_text.len() + key.len() <= MAX_TEXT_LENGTH ==> state.after_key(
            key,
            now,
        ).typed_text == state.typed_text + key,
        state.after_key(key, now).new_char_count == key.len() as usize,
{
}

/// Every event keeps the invariant of the controller.
pub proof fn lemma_step_keeps_wf(state: AppView, event: Event)
    requires
        state.wf(),
        event.admissible(),
    ensures
        state.step(event).wf(),
{
    match event {
        Event::Key { key, now } => {
            lemma_key_bounds_text(state, key, now);
        },
        Event::Tick { now, pick } => {},
        Event::Paint { elapsed, new_chars_in_view } => {},
        Event::Rendered { size } => {},
    }
}

/// Whatever sequence of events the controller meets, its invariant holds
/// after each of them: the text is within `MAX_TEXT_LENGTH`, and the
/// typing and idle frames are within their frame counts.
pub proof fn lemma_run_keeps_wf(state: AppView, events: Seq<Event>)
    requires
        state.wf(),
        forall|i: int| 0 <= i < events.len() ==> (#[trigger] events[i]).admissible(),
    ensures
        state.run(events).wf(),
        state.run(events).typed_text.len() <= MAX_TEXT_LENGTH,
        state.run(events).typing_frame < TYPING_FRAME_COUNT,
        state.run(events).idle_frame < IDLE_FRAME_COUNT,
    decreases events.len(),
{
    if events.len() > 0 {
        lemma_run_keeps_wf(state, events.drop_last());
        lemma_step_keeps_wf(state.run(events.drop_last()), events.last());
    }
}

/// An accepted key puts the controller in `Typing`, whatever its state
/// was, stamps the key's time, and is remembered as the latest key; the
/// typing frames restart only when the key ends an idle time.
pub proof fn lemma_accepted_key_starts_typing(state: AppView, key: Seq<char>, now: u64)
    requires
        !is_ignored_key(key),
    ensures
        state.after_key(key, now).animation_state == AnimationState::Typing,
        state.after_key(key, now).last_keypress_time == now,
        state.after_key(key, now).last_key == Some(key),
        state.animation_state == AnimationState::Idle ==> state.after_key(key, now).typing_frame
            == 0,
        state.animation_state == AnimationState::Typing ==> state.after_key(
            key,
            now,
        ).typing_frame == state.typing_frame,
{
}

/// A tick takes the controller from `Typing` to `Idle` exactly when at
/// least the linger time has passed since the last accepted key, and no
/// tick takes it from `Idle` to `Typing`.
pub proof fn lemma_tick_ends_typing_after_linger(state: AppView, now: u64, pick: usize)
    ensures
        state.animation_state == AnimationState::Typing ==> (state.after_tick(
            now,
            pick,
        ).animation_state == AnimationState::Idle <==> span(now, state.last_keypress_time)
            >= TYPING_LINGER_DURATION),
        state.animation_state == AnimationState::Idle ==> state.after_tick(
            now,
            pick,
        ).animation_state == AnimationState::Idle,
        state.animation_state == AnimationState::Typing && state.after_tick(
            now,
            pick,
        ).animation_state == AnimationState::Idle ==> state.after_tick(now, pick).idle_frame
            == pick && state.after_tick(now, pick).fade_effect == Some(
            Overlay::fresh(OverlayKind::Fade, FADE_OUT_DURATION),
        ),
{
}

/// Only ticks and ignored keys leave the time of the last accepted key as
/// it was, and only a tick can end the typing: painting and redrawing
/// change neither the animation state nor that time.
pub proof fn lemma_paint_and_redraw_keep_state(state: AppView, event: Event)
    requires
        event is Paint || event is Rendered,
    ensures
        state.step(event).animation_state == state.animation_state,
        state.step(event).last_keypress_time == state.last_keypress_time,
        state.step(event).typed_text == state.typed_text,
        state.step(event).typing_frame == state.typing_frame,
        state.step(event).idle_frame == state.idle_frame,
{
}

/// While every tick comes within the linger time of the last accepted
/// key, a controller that is typing stays typing, whatever else happens:
/// there is no early return to `Idle`.
pub proof fn lemma_no_early_idle(state: AppView, events: Seq<Event>)
    requires
        state.animation_state == AnimationState::Typing,
        state.ticks_within_linger(events),
    ensures
        state.run(events).animation_state == AnimationState::Typing,
    decreases events.len(),
{
    if events.len() > 0 {
        lemma_no_early_idle(state, events.drop_last());
    }
}

/// A controller that is idle stays idle until a key is accepted: a run
/// without accepted keys from `Idle` ends in `Idle`.
pub proof fn lemma_idle_until_key(state: AppView, events: Seq<Event>)
    requires
        state.animation_state == AnimationState::Idle,
        forall|i: int|
            0 <= i < events.len() ==> ((#[trigger] events[i]) matches Event::Key { key, .. }
                ==> is_ignored_key(key)),
    ensures
        state.run(events).animation_state == AnimationState::Idle,
    decreases events.len(),
{
    if events.len() > 0 {
        lemma_idle_until_key(state, events.drop_last());
    }
}

/// Advancing a frame `steps` times in a cycle of `count` frames adds
/// `steps` to it modulo `count`.
pub proof fn lemma_frame_after(frame: usize, count: usize, steps: nat)
    requires
        0 < count,
        frame < count,
    ensures
        frame_after(frame, count, steps) == (frame + steps) % (count as int),
        frame_after(frame, count, steps) < count,
    decreases steps,
{
    if steps > 0 {
        lemma_frame_after(frame, count, (steps - 1) as nat);
        let prev = frame_after(frame, count, (steps - 1) as nat);
        let c = count as int;
        if c == 1 {
            assert((prev + 1) % c == 0);
            assert((frame + steps) % c == 0);
        } else {
            lemma_small_mod(1, count as nat);
            lemma_add_mod_noop(frame + steps - 1, 1, c);
        }
        assert((prev + 1) % c == (frame + steps) % c);
        lemma_mod_bound(frame + steps, c);
    } else {
        lemma_small_mod(frame as nat, count as nat);
    }
}

/// The typing frame runs through a cycle of exactly `TYPING_FRAME_COUNT`
/// frames: it never leaves the range, it is back where it started after
/// that many advances, and not before.
pub proof fn lemma_typing_frame_cycles(frame: usize, steps: nat)
    requires
        frame < TYPING_FRAME_COUNT,
    ensures
        frame_after(frame, TYPING_FRAME_COUNT, steps) < TYPING_FRAME_COUNT,
        frame_after(frame, TYPING_FRAME_COUNT, TYPING_FRAME_COUNT as nat) == frame,
        0 < steps < TYPING_FRAME_COUNT ==> frame_after(frame, TYPING_FRAME_COUNT, steps) != frame,
        frame_after(frame, TYPING_FRAME_COUNT, (steps + TYPING_FRAME_COUNT) as nat) == frame_after(
            frame,
            TYPING_FRAME_COUNT,
            steps,
        ),
{
    lemma_frame_after(frame, TYPING_FRAME_COUNT, steps);
    lemma_frame_after(frame, TYPING_FRAME_COUNT, TYPING_FRAME_COUNT as nat);
    lemma_frame_after(frame, TYPING_FRAME_COUNT, (steps + TYPING_FRAME_COUNT) as nat);
}

/// The same for the idle frame and `IDLE_FRAME_COUNT`.
pub proof fn lemma_idle_frame_cycles(frame: usize, steps: nat)
    requires
        frame < IDLE_FRAME_COUNT,
    ensures
        frame_after(frame, IDLE_FRAME_COUNT, steps) < IDLE_FRAME_COUNT,
        frame_after(frame, IDLE_FRAME_COUNT, IDLE_FRAME_COUNT as nat) == frame,
        0 < steps < IDLE_FRAME_COUNT ==> frame_after(frame, IDLE_FRAME_COUNT, steps) != frame,
{
    lemma_frame_after(frame, IDLE_FRAME_COUNT, steps);
    lemma_frame_after(frame, IDLE_FRAME_COUNT, IDLE_FRAME_COUNT as nat);
}

/// A tick moves the typing frame by at most one advance, and by one
/// exactly when the controller is typing and the frame's time is up.
pub proof fn lemma_tick_advances_typing_frame(state: AppView, now: u64, pick: usize)
    ensures
        state.after_tick(now, pick).typing_frame == if state.animation_state
            == AnimationState::Typing && span(now, state.last_typing_frame_time)
            >= TYPING_ANIMATION_DURATION {
            next_frame(state.typing_frame, TYPING_FRAME_COUNT)
        } else {
            state.typing_frame
        },
{
}

/// The answer of the dirty check rests on the snapshot and on the four
/// things it is compared with, and on nothing else: two states that agree
/// on those get the same answer. Asking changes no state, so asking
/// twice gets the same answer twice.
pub proof fn lemma_redraw_check_reads_only_the_visible(a: AppView, b: AppView, size: (u16, u16))
    requires
        a.last_terminal_size == b.last_terminal_size,
        a.last_rendered_state == b.last_rendered_state,
        a.last_rendered_frame == b.last_rendered_frame,
        a.last_rendered_text == b.last_rendered_text,
        a.animation_state == b.animation_state,
        a.current_frame() == b.current_frame(),
        a.typed_text == b.typed_text,
    ensures
        a.needs_redraw(size) == b.needs_redraw(size),
{
}

/// Once a redraw was recorded, no redraw is needed while nothing visible
/// changes, and one is needed as soon as the terminal size, the animation
/// state, the frame on screen or the text differs from what was recorded.
pub proof fn lemma_redraw_needed_iff_changed(
    drawn: AppView,
    size: (u16, u16),
    later: AppView,
    later_size: (u16, u16),
)
    requires
        later.last_terminal_size == drawn.rendered(size).last_terminal_size,
        later.last_rendered_state == drawn.rendered(size).last_rendered_state,
        later.last_rendered_frame == drawn.rendered(size).last_rendered_frame,
        later.last_rendered_text == drawn.rendered(size).last_rendered_text,
    ensures
        !drawn.rendered(size).needs_redraw(size),
        later.needs_redraw(later_size) <==> (later_size != size || later.animation_state
            != drawn.animation_state || later.current_frame() != drawn.current_frame()
            || later.typed_text != drawn.typed_text),
{
}

/// Recording a redraw touches nothing but the snapshot, and recording the
/// same thing twice is recording it once.
pub proof fn lemma_rendered_is_idempotent(state: AppView, size: (u16, u16))
    ensures
        state.rendered(size).rendered(size) == state.rendered(size),
        state.rendered(size).animation_state == state.animation_state,
        state.rendered(size).current_frame() == state.current_frame(),
        state.rendered(size).typed_text == state.typed_text,
{
}

/// An accepted key leaves the materialize overlay alone in play: it
/// starts that overlay anew, whatever was left of the one before, and it
/// ends a fade-out that was running.
pub proof fn lemma_key_supersedes_fade(state: AppView, key: Seq<char>, now: u64)
    requires
        !is_ignored_key(key),
    ensures
        state.after_key(key, now).fade_effect is None,
        state.after_key(key, now).typing_effect == Some(
            Overlay::fresh(OverlayKind::Materialize, TYPING_EFFECT_DURATION),
        ),
        !state.after_key(key, now).fade_effect_runs(),
{
}

/// A fade-out exists only in `Idle`, and it is started by the tick that
/// ends the typing and by nothing else: an event that leaves a state with
/// a fade-out that was not there before is that tick.
pub proof fn lemma_fade_starts_with_idle(state: AppView, event: Event)
    requires
        state.wf(),
        event.admissible(),
        state.fade_effect is None,
        state.step(event).fade_effect is Some,
    ensures
        event is Tick,
        state.animation_state == AnimationState::Typing,
        state.step(event).animation_state == AnimationState::Idle,
        state.step(event).fade_effect == Some(Overlay::fresh(OverlayKind::Fade, FADE_OUT_DURATION)),
{
}

/// The text is emptied by a tick only when a fade-out has run out, and a
/// fade-out that has run out in `Idle` is gone with the text after the
/// next tick.
pub proof fn lemma_fade_end_clears_text(state: AppView, now: u64, pick: usize)
    requires
        state.wf(),
    ensures
        state.animation_state == AnimationState::Idle && state.fade_finished() ==> state.after_tick(
            now,
            pick,
        ).typed_text.len() == 0 && state.after_tick(now, pick).fade_effect is None,
        !(state.animation_state == AnimationState::Idle && state.fade_finished())
            ==> state.after_tick(now, pick).typed_text == state.typed_text,
{
}

/// Keeping the end of a text, adding to it and keeping the end again is
/// adding to the whole text and keeping the end once.
pub proof fn lemma_keep_tail_of_kept(text: Seq<char>, more: Seq<char>, cap: nat)
    ensures
        keep_tail(keep_tail(text, cap) + more, cap) == keep_tail(text + more, cap),
{
    let kept = keep_tail(text, cap);
    assert(keep_tail(kept + more, cap) =~= keep_tail(text + more, cap));
}

/// Literal keys accumulate: after a run of accepted literal keys, at
/// whatever times, the text is what was there followed by the keys in
/// their order, less what exceeds the cap at the front; it is not marked
/// as a label; and the controller is typing.
pub proof fn lemma_literal_keys_accumulate(state: AppView, keys: Seq<Seq<char>>, times: Seq<u64>)
    requires
        !state.is_special_key_text,
        state.typed_text.len() <= MAX_TEXT_LENGTH,
        keys.len() == times.len(),
        forall|i: int|
            0 <= i < keys.len() ==> !is_ignored_key(#[trigger] keys[i]) && !is_special_key(keys[i]),
    ensures
        state.run(keys_at(keys, times)).typed_text == keep_tail(
            state.typed_text + joined(keys),
            MAX_TEXT_LENGTH as nat,
        ),
        state.typed_text.len() + joined(keys).len() <= MAX_TEXT_LENGTH ==> state.run(
            keys_at(keys, times),
        ).typed_text == state.typed_text + joined(keys),
        !state.run(keys_at(keys, times)).is_special_key_text,
        keys.len() > 0 ==> state.run(keys_at(keys, times)).animation_state
            == AnimationState::Typing,
        keys.len() > 0 ==> state.run(keys_at(keys, times)).last_keypress_time == times.last(),
    decreases keys.len(),
{
    let cap = MAX_TEXT_LENGTH as nat;
    let events = keys_at(keys, times);
    if keys.len() == 0 {
        assert(events =~= Seq::<Event>::empty());
        assert(state.typed_text + joined(keys) =~= state.typed_text);
    } else {
        let before_keys = keys.drop_last();
        let before_times = times.drop_last();
        lemma_literal_keys_accumulate(state, before_keys, before_times);
        assert(events.drop_last() =~= keys_at(before_keys, before_times));
        assert(events.last() == Event::Key { key: keys.last(), now: times.last() });
        lemma_keep_tail_of_kept(state.typed_text + joined(before_keys), keys.last(), cap);
        assert((state.typed_text + joined(before_keys)) + keys.last() =~= state.typed_text
            + joined(keys));
    }
}

/// Painted frames take their time off a fade-out that runs: in `Idle`,
/// with text on screen, a fade-out has after a run of painted frames what
/// it had before less the sum of their steps, and nothing once the sum
/// reaches what it had. The frames change nothing else that a tick reads.
pub proof fn lemma_paints_run_the_fade_down(state: AppView, steps: Seq<u32>, in_view: bool)
    requires
        state.fade_effect is Some,
        state.typed_text.len() > 0,
    ensures
        state.run(paints(steps, in_view)).fade_effect == Some(
            Overlay {
                remaining: if state.fade_effect->0.remaining > total_of(steps) {
                    (state.fade_effect->0.remaining - total_of(steps)) as u32
                } else {
                    0
                },
                ..state.fade_effect->0
            },
        ),
        state.run(paints(steps, in_view)).typed_text == state.typed_text,
        state.run(paints(steps, in_view)).animation_state == state.animation_state,
        state.run(paints(steps, in_view)).fade_finished() <==> total_of(steps)
            >= state.fade_effect->0.remaining,
        total_of(steps) >= 0,
    decreases steps.len(),
{
    let events = paints(steps, in_view);
    if steps.len() == 0 {
        assert(events =~= Seq::<Event>::empty());
    } else {
        lemma_paints_run_the_fade_down(state, steps.drop_last(), in_view);
        assert(events.drop_last() =~= paints(steps.drop_last(), in_view));
        assert(events.last() == Event::Paint { elapsed: steps.last(), new_chars_in_view: in_view });
    }
}

/// A typing session ends as it should: once the linger time has passed
/// since the last accepted key, a tick brings the controller to `Idle`
/// and starts the fade-out with the text still on screen; painted frames
/// whose steps add up to the fade-out's duration run it out; and the tick
/// after that empties the text.
pub proof fn lemma_session_ends_with_empty_text(
    state: AppView,
    end: u64,
    pick: usize,
    steps: Seq<u32>,
    in_view: bool,
    after: u64,
    later_pick: usize,
)
    requires
        state.animation_state == AnimationState::Typing,
        state.typed_text.len() > 0,
        span(end, state.last_keypress_time) >= TYPING_LINGER_DURATION,
        total_of(steps) >= FADE_OUT_DURATION,
    ensures
        ({
            let idle = state.after_tick(end, pick);
            let faded = idle.run(paints(steps, in_view));
            let cleared = faded.after_tick(after, later_pick);
            &&& idle.animation_state == AnimationState::Idle
            &&& idle.typed_text == state.typed_text
            &&& faded.typed_text == state.typed_text
            &&& cleared.animation_state == AnimationState::Idle
            &&& cleared.typed_text.len() == 0
            &&& cleared.fade_effect is None
        }),
{
    let idle = state.after_tick(end, pick);
    lemma_paints_run_the_fade_down(idle, steps, in_view);
}

} // verus!
