//! Scratch accumulator used while the simulation is in its rewind-editing
//! mode: a candidate timeline index mutated by saturating scrubs, and the
//! anchor index the editing started from, kept for a reset.

use vstd::prelude::*;

verus! {

/// Index of one instant in the timeline.
pub type InstantIndex = u16;

/// How many instants one timeline holds.
pub const INSTANT_COUNT: u32 = 65536;

/// What a saturating addition on an instant index yields.
pub open spec fn sat_add(a: InstantIndex, b: InstantIndex) -> InstantIndex {
    if a + b > 0xFFFF {
        0xFFFF
    } else {
        (a + b) as InstantIndex
    }
}

/// What a saturating subtraction on an instant index yields.
pub open spec fn sat_sub(a: InstantIndex, b: InstantIndex) -> InstantIndex {
    if a - b < 0 {
        0
    } else {
        (a - b) as InstantIndex
    }
}

/// One scrub intent: add or subtract some magnitude, saturating.
pub enum ScrubOp {
    Add(InstantIndex),
    Sub(InstantIndex),
}

/// What one scrub does to a candidate index.
pub open spec fn scrub_step(c: InstantIndex, op: ScrubOp) -> InstantIndex {
    match op {
        ScrubOp::Add(n) => sat_add(c, n),
        ScrubOp::Sub(n) => sat_sub(c, n),
    }
}

/// What an accumulator holds, as plain values: the candidate index under
/// edit and the anchor index the editing started from.
pub struct TimeInputModel {
    pub candidate: InstantIndex,
    pub anchor: InstantIndex,
}

impl TimeInputModel {
    /// What editing starts with: candidate and anchor both at `at`.
    pub open spec fn started_at(at: InstantIndex) -> TimeInputModel {
        TimeInputModel { candidate: at, anchor: at }
    }

    /// The accumulator one scrub later: the candidate moves, saturating; the
    /// anchor never does.
    pub open spec fn scrubbed(self, op: ScrubOp) -> TimeInputModel {
        TimeInputModel { candidate: scrub_step(self.candidate, op), ..self }
    }

    /// The accumulator a whole sequence of scrubs later.
    pub open spec fn scrubbed_all(self, ops: Seq<ScrubOp>) -> TimeInputModel
        decreases ops.len(),
    {
        if ops.len() == 0 {
            self
        } else {
            self.scrubbed_all(ops.drop_last()).scrubbed(ops.last())
        }
    }

    /// The accumulator after a reset: the candidate back at the anchor.
    pub open spec fn reset(self) -> TimeInputModel {
        TimeInputModel { candidate: self.anchor, ..self }
    }
}

/// Candidate timeline index being edited, plus the index editing started from.
#[derive(Clone, Copy)]
pub struct TimeInput {
    current: InstantIndex,
    initial: InstantIndex,
}

impl View for TimeInput {
    type V = TimeInputModel;

    closed spec fn view(&self) -> TimeInputModel {
        TimeInputModel { candidate: self.current, anchor: self.initial }
    }
}

impl TimeInput {
    /// Starts editing at `at`: candidate and anchor both set there.
    pub fn new(at: InstantIndex) -> (r: TimeInput)
        ensures
            r@ == TimeInputModel::started_at(at),
    {
        TimeInput { current: at, initial: at }
    }

    pub fn saturating_add(&mut self, to_add: InstantIndex)
        ensures
            final(self)@ == old(self)@.scrubbed(ScrubOp::Add(to_add)),
    {
        self.current = self.current.saturating_add(to_add);
    }

    pub fn saturating_sub(&mut self, to_sub: InstantIndex)
        ensures
            final(self)@ == old(self)@.scrubbed(ScrubOp::Sub(to_sub)),
    {
        self.current = self.current.saturating_sub(to_sub);
    }

    /// Restores the candidate to the anchor.
    pub fn reset(&mut self)
        ensures
            final(self)@ == old(self)@.reset(),
    {
        self.current = self.initial;
    }

    pub fn get_value(&self) -> (r: InstantIndex)
        ensures
            r == self@.candidate,
    {
        self.current
    }
}

impl Default for TimeInput {
    fn default() -> (r: Self)
        ensures
            r@ == TimeInputModel::started_at(0),
    {
        TimeInput { current: 0, initial: 0 }
    }
}

/// From any starting accumulator, an arbitrary sequence of scrubs keeps the
/// candidate within `[0, INSTANT_COUNT - 1]` and never moves the anchor, so a
/// reset afterwards always restores the candidate to the original anchor.
pub proof fn lemma_scrub_saturation_and_reset(t: TimeInputModel, ops: Seq<ScrubOp>)
    ensures
        0 <= t.scrubbed_all(ops).candidate as u32 <= INSTANT_COUNT - 1,
        t.scrubbed_all(ops).anchor == t.anchor,
        t.scrubbed_all(ops).reset().candidate == t.anchor,
    decreases ops.len(),
{
    if ops.len() > 0 {
        lemma_scrub_saturation_and_reset(t, ops.drop_last());
    }
}

} // verus!
