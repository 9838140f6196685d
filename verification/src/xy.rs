//! Bounded scalar coordinates: one type per axis, each clamped to a
//! compile-time maximum on construction and under saturating stepping.

use vstd::prelude::*;

verus! {

/// Raw storage for one axis of a coordinate.
pub type Inner = u8;

/// Largest value an `X` may hold.
pub const MAX_W_INNER: Inner = 0x80;

/// Largest value a `Y` may hold.
pub const MAX_H_INNER: Inner = 0x40;

/// What clamping a raw value to `[0, max]` yields.
pub open spec fn clamped(raw: Inner, max: Inner) -> Inner {
    if raw > max {
        max
    } else {
        raw
    }
}

/// What one saturating step towards `max` yields.
pub open spec fn stepped_up(v: Inner, max: Inner) -> Inner {
    if v >= max {
        max
    } else {
        (v + 1) as Inner
    }
}

/// What one saturating step towards zero yields.
pub open spec fn stepped_down(v: Inner) -> Inner {
    if v == 0 {
        0
    } else {
        (v - 1) as Inner
    }
}

/// `n` saturating steps up from `v`.
pub open spec fn stepped_up_n(v: Inner, max: Inner, n: nat) -> Inner
    decreases n,
{
    if n == 0 {
        v
    } else {
        stepped_up(stepped_up_n(v, max, (n - 1) as nat), max)
    }
}

/// `n` saturating steps down from `v`.
pub open spec fn stepped_down_n(v: Inner, n: nat) -> Inner
    decreases n,
{
    if n == 0 {
        v
    } else {
        stepped_down(stepped_down_n(v, (n - 1) as nat))
    }
}

/// Horizontal coordinate, held within `[0, MAX_W_INNER]`.
#[derive(Clone, Copy)]
pub struct X(Inner);

/// Clamps to the valid range.
pub fn x(raw: Inner) -> (r: X)
    ensures
        r@ == clamped(raw, MAX_W_INNER),
        r.wf(),
{
    X(if raw > MAX_W_INNER {
        MAX_W_INNER
    } else {
        raw
    })
}

impl View for X {
    type V = Inner;

    /// The value held, free of any display scaling.
    closed spec fn view(&self) -> Inner {
        self.0
    }
}

impl X {
    /// The coordinate lies within its axis bounds.
    pub open spec fn wf(self) -> bool {
        self@ <= MAX_W_INNER
    }

    pub fn get(self) -> (r: Inner)
        ensures
            r == self@,
    {
        self.0
    }

    /// One saturating step towards `MAX_W_INNER`.
    pub fn increment(&mut self)
        ensures
            final(self)@ == stepped_up(old(self)@, MAX_W_INNER),
            final(self).wf(),
    {
        self.0 = self.0.saturating_add(1);
        if self.0 > MAX_W_INNER {
            self.0 = MAX_W_INNER;
        }
    }

    /// One saturating step towards zero.
    pub fn decrement(&mut self)
        ensures
            final(self)@ == stepped_down(old(self)@),
            old(self).wf() ==> final(self).wf(),
    {
        self.0 = self.0.saturating_sub(1);
    }
}

impl Default for X {
    fn default() -> (r: Self)
        ensures
            r@ == 0,
    {
        X(0)
    }
}

/// Vertical coordinate, held within `[0, MAX_H_INNER]`.
#[derive(Clone, Copy)]
pub struct Y(Inner);

/// Clamps to the valid range.
pub fn y(raw: Inner) -> (r: Y)
    ensures
        r@ == clamped(raw, MAX_H_INNER),
        r.wf(),
{
    Y(if raw > MAX_H_INNER {
        MAX_H_INNER
    } else {
        raw
    })
}

impl View for Y {
    type V = Inner;

    /// The value held, free of any display scaling.
    closed spec fn view(&self) -> Inner {
        self.0
    }
}

impl Y {
    /// The coordinate lies within its axis bounds.
    pub open spec fn wf(self) -> bool {
        self@ <= MAX_H_INNER
    }

    pub fn get(self) -> (r: Inner)
        ensures
            r == self@,
    {
        self.0
    }

    /// One saturating step towards `MAX_H_INNER`.
    pub fn increment(&mut self)
        ensures
            final(self)@ == stepped_up(old(self)@, MAX_H_INNER),
            final(self).wf(),
    {
        self.0 = self.0.saturating_add(1);
        if self.0 > MAX_H_INNER {
            self.0 = MAX_H_INNER;
        }
    }

    /// One saturating step towards zero.
    pub fn decrement(&mut self)
        ensures
            final(self)@ == stepped_down(old(self)@),
            old(self).wf() ==> final(self).wf(),
    {
        self.0 = self.0.saturating_sub(1);
    }
}

impl Default for Y {
    fn default() -> (r: Self)
        ensures
            r@ == 0,
    {
        Y(0)
    }
}

/// However many times a coordinate that starts at or below its axis maximum
/// is stepped up, it never exceeds that maximum.
pub proof fn lemma_repeated_increment_bounded(v: Inner, max: Inner, n: nat)
    requires
        v <= max,
    ensures
        stepped_up_n(v, max, n) <= max,
    decreases n,
{
    if n > 0 {
        lemma_repeated_increment_bounded(v, max, (n - 1) as nat);
    }
}

/// However many times a coordinate is stepped down, it saturates at zero:
/// it never underflows, and it never rises.
pub proof fn lemma_repeated_decrement_bounded(v: Inner, n: nat)
    ensures
        0 <= stepped_down_n(v, n) <= v,
    decreases n,
{
    if n > 0 {
        lemma_repeated_decrement_bounded(v, (n - 1) as nat);
    }
}

} // verus!
