//! The progress indicator's state machine: Idle until started, then Running,
//! where each tick advances to the next glyph in a fixed cycle and redraws
//! the glyph with the status message, until externally stopped, which erases
//! the drawn line. The timer that paces the ticks and the terminal itself
//! belong to the surrounding program; this module decides what each tick
//! shows and guarantees that a stopped indicator leaves nothing behind.

use vstd::prelude::*;

verus! {

/// How many glyphs the spinner cycles through.
pub const SPINNER_GLYPH_COUNT: usize = 10;

/// The fixed period between ticks, in milliseconds.
pub const TICK_INTERVAL_MS: u64 = 120;

/// The phases of the indicator's life: it starts Idle, runs until cancelled,
/// and once Stopped never draws again.
pub enum IndicatorState {
    Idle,
    Running,
    Stopped,
}

/// One redraw: which glyph of the cycle to show, next to which message.
pub struct Frame {
    pub glyph_index: usize,
    pub message: String,
}

/// The indicator: its phase, its position in the glyph cycle, its status
/// message, and whether its output currently stands on the terminal line.
pub struct ProgressIndicator {
    pub state: IndicatorState,
    pub glyph_index: usize,
    pub message: String,
    pub rendered: bool,
}

impl ProgressIndicator {
    /// The indicator's invariant: the glyph position stays inside the cycle,
    /// and an indicator that is not running has nothing on the terminal.
    pub open spec fn wf(self) -> bool {
        &&& self.glyph_index < SPINNER_GLYPH_COUNT
        &&& self.state is Idle ==> !self.rendered
        &&& self.state is Stopped ==> !self.rendered
    }

    /// A fresh indicator: Idle, at the start of the glyph cycle, with an
    /// empty message and a clean terminal line.
    pub fn new() -> (r: ProgressIndicator)
        ensures
            r.wf(),
            r.state is Idle,
            r.glyph_index == 0,
            r.message@ == Seq::<char>::empty(),
            !r.rendered,
    {
        ProgressIndicator {
            state: IndicatorState::Idle,
            glyph_index: 0,
            message: String::new(),
            rendered: false,
        }
    }

    /// Start running with a status message. Nothing is drawn yet: the first
    /// tick draws.
    pub fn start(&mut self, message: String)
        requires
            old(self).wf(),
            old(self).state is Idle,
        ensures
            final(self).wf(),
            final(self).state is Running,
            final(self).message@ == message@,
            final(self).glyph_index == old(self).glyph_index,
            !final(self).rendered,
    {
        self.state = IndicatorState::Running;
        self.message = message;
    }

    /// One tick while running: advance to the next glyph of the cycle,
    /// wrapping at its end, and return the frame to draw — the new glyph
    /// beside the current message. After the tick that frame stands on the
    /// terminal line.
    pub fn tick(&mut self) -> (frame: Frame)
        requires
            old(self).wf(),
            old(self).state is Running,
        ensures
            final(self).wf(),
            final(self).state is Running,
            final(self).glyph_index == (old(self).glyph_index + 1) % (
            SPINNER_GLYPH_COUNT as int),
            final(self).message@ == old(self).message@,
            final(self).rendered,
            frame.glyph_index == final(self).glyph_index,
            frame.message@ == final(self).message@,
    {
        self.glyph_index = (self.glyph_index + 1) % SPINNER_GLYPH_COUNT;
        self.rendered = true;
        Frame { glyph_index: self.glyph_index, message: self.message.clone() }
    }

    /// Cancellation: stop and erase whatever the indicator drew. A stopped
    /// indicator makes no further updates, and its line holds nothing.
    pub fn stop(&mut self)
        requires
            old(self).wf(),
        ensures
            final(self).wf(),
            final(self).state is Stopped,
            !final(self).rendered,
            final(self).glyph_index == old(self).glyph_index,
            final(self).message@ == old(self).message@,
    {
        self.state = IndicatorState::Stopped;
        self.rendered = false;
    }
}

/// Every tick changes the glyph on display: one step around a cycle of at
/// least two glyphs never shows the same glyph again.
pub proof fn lemma_tick_changes_glyph(i: usize)
    requires
        i < SPINNER_GLYPH_COUNT,
    ensures
        (i + 1) % (SPINNER_GLYPH_COUNT as int) != i,
{
}

/// A stopped indicator leaves zero residual characters on its line.
pub proof fn lemma_stopped_leaves_no_output(ind: ProgressIndicator)
    requires
        ind.wf(),
        ind.state is Stopped,
    ensures
        !ind.rendered,
{
}

} // verus!
