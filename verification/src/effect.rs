//! Time-bounded overlay effects.
//!
//! An overlay is a countdown in whole milliseconds. It is created with its
//! full duration remaining, loses time through `advance`, and is done once
//! nothing remains. How an overlay is painted is not decided here.

use vstd::prelude::*;

verus! {

/// Duration of the fade-out overlay that starts when typing stops.
pub const FADE_OUT_DURATION: u32 = 800;

/// Duration of the materialize overlay that every accepted key starts.
pub const TYPING_EFFECT_DURATION: u32 = 150;

/// The upper end of the progress scale of `Overlay::progress`.
pub const PROGRESS_FULL: u32 = 1000;

/// Which of the two overlays a timer drives.
#[derive(Debug, Clone, Copy, PartialEq, Eq, Structural)]
pub enum OverlayKind {
    /// Freshly typed characters come into view.
    Materialize,
    /// The whole text goes out of view.
    Fade,
}

/// The curve by which a painter maps elapsed time to visual progress.
#[derive(Debug, Clone, Copy, PartialEq, Eq, Structural)]
pub enum Easing {
    Linear,
    QuadOut,
}

/// A running overlay effect.
#[derive(Debug, Clone, Copy, PartialEq, Eq, Structural)]
pub struct Overlay {
    pub kind: OverlayKind,
    pub easing: Easing,
    /// Full duration in milliseconds.
    pub total: u32,
    /// Milliseconds still to run.
    pub remaining: u32,
}

impl Overlay {
    /// No overlay has more time left than it started with.
    pub open spec fn wf(self) -> bool {
        self.remaining <= self.total
    }

    /// The overlay of the given kind as it is when it starts.
    pub open spec fn fresh(kind: OverlayKind, duration: u32) -> Overlay {
        Overlay { kind, easing: Easing::QuadOut, total: duration, remaining: duration }
    }

    pub open spec fn is_done(self) -> bool {
        self.remaining == 0
    }

    pub open spec fn has_started(self) -> bool {
        self.remaining != self.total
    }

    /// The overlay after `elapsed` more milliseconds.
    pub open spec fn after(self, elapsed: u32) -> Overlay {
        Overlay {
            remaining: if self.remaining >= elapsed {
                (self.remaining - elapsed) as u32
            } else {
                0
            },
            ..self
        }
    }

    /// Elapsed share of the duration in thousandths; an overlay without
    /// duration is complete from the start.
    pub open spec fn progress_of(self) -> int {
        if self.total == 0 {
            PROGRESS_FULL as int
        } else {
            (self.total - self.remaining) * PROGRESS_FULL / (self.total as int)
        }
    }

    /// Starts an overlay with its whole duration ahead of it.
    pub fn start(kind: OverlayKind, duration: u32) -> (o: Overlay)
        ensures
            o == Overlay::fresh(kind, duration),
            o.wf(),
    {
        Overlay { kind, easing: Easing::QuadOut, total: duration, remaining: duration }
    }

    /// The materialize overlay of one keystroke.
    pub fn materialize() -> (o: Overlay)
        ensures
            o == Overlay::fresh(OverlayKind::Materialize, TYPING_EFFECT_DURATION),
    {
        Overlay::start(OverlayKind::Materialize, TYPING_EFFECT_DURATION)
    }

    /// The fade-out overlay of the return to idle.
    pub fn fade_out() -> (o: Overlay)
        ensures
            o == Overlay::fresh(OverlayKind::Fade, FADE_OUT_DURATION),
    {
        Overlay::start(OverlayKind::Fade, FADE_OUT_DURATION)
    }

    /// Whether the countdown has run out.
    pub fn done(&self) -> (b: bool)
        ensures
            b == self.is_done(),
    {
        self.remaining == 0
    }

    /// Whether any time has been taken off the countdown yet.
    pub fn started(&self) -> (b: bool)
        ensures
            b == self.has_started(),
    {
        self.remaining != self.total
    }

    /// Takes `elapsed` milliseconds off the countdown, stopping at zero.
    pub fn advance(&mut self, elapsed: u32)
        ensures
            *final(self) == old(self).after(elapsed),
            old(self).wf() ==> final(self).wf(),
    {
        self.remaining = if self.remaining >= elapsed {
            self.remaining - elapsed
        } else {
            0
        };
    }

    /// Elapsed share of the duration, from 0 to `PROGRESS_FULL`.
    pub fn progress(&self) -> (p: u32)
        requires
            self.wf(),
        ensures
            p == self.progress_of(),
            p <= PROGRESS_FULL,
            self.is_done() ==> p == PROGRESS_FULL,
    {
        if self.total == 0 {
            PROGRESS_FULL
        } else {
            let spent: u64 = (self.total - self.remaining) as u64;
            let scaled: u64 = spent * (PROGRESS_FULL as u64);
            assert(scaled / (self.total as u64) <= 1000) by (nonlinear_arith)
                requires
                    scaled == spent * 1000,
                    spent <= self.total,
                    self.total > 0,
            ;
            assert(self.is_done() ==> scaled / (self.total as u64) == 1000) by (nonlinear_arith)
                requires
                    scaled == spent * 1000,
                    self.is_done() ==> spent == self.total,
                    self.total > 0,
            ;
            (scaled / (self.total as u64)) as u32
        }
    }
}

/// An overlay that starts whole is done exactly when enough time has been
/// taken off it: after steps `a` and then `b` it is done if and only if
/// `a + b` reaches the duration, and two steps count as their sum while the
/// sum fits.
pub proof fn lemma_overlay_advance_adds(o: Overlay, a: u32, b: u32)
    requires
        a + b <= u32::MAX,
    ensures
        o.after(a).after(b) == o.after((a + b) as u32),
        o.after(a).after(b).is_done() <==> a + b >= o.remaining,
{
}

/// A done overlay stays done, and an advance never adds time.
pub proof fn lemma_overlay_monotone(o: Overlay, elapsed: u32)
    ensures
        o.after(elapsed).remaining <= o.remaining,
        o.is_done() ==> o.after(elapsed).is_done(),
        o.after(elapsed).total == o.total,
        o.after(elapsed).kind == o.kind,
{
}

} // verus!
