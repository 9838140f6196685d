//! Splats and the fixed-capacity instants that record them. One instant holds
//! up to `SPLAT_COUNT` splats, in the order they were recorded; appending past
//! capacity is refused with an error, never a silent drop and never a panic.

use vstd::prelude::*;
use crate::xy::{Inner, X, Y};

verus! {

/// Display tag for one splat: an index into the renderer's palette.
pub type PaletteIndex = u8;

/// How many splats one instant can record.
pub const SPLAT_COUNT: u16 = 256;

/// A recorded marker of a self's position at a past instant.
#[derive(Clone, Copy)]
pub struct Splat {
    pub x: X,
    pub y: Y,
    pub colour: PaletteIndex,
}

/// What a splat holds, as plain values: the stamped cell and its display tag.
pub struct SplatModel {
    pub x: Inner,
    pub y: Inner,
    pub colour: PaletteIndex,
}

impl View for Splat {
    type V = SplatModel;

    open spec fn view(&self) -> SplatModel {
        SplatModel { x: self.x@, y: self.y@, colour: self.colour }
    }
}

/// Error returned when an instant already holds `SPLAT_COUNT` splats.
#[derive(Clone, Copy, Debug)]
#[must_use]
pub struct OutOfSplats;

/// One discrete point in the recorded timeline: the splats stamped there, in
/// the order they were recorded.
pub struct Instant {
    splats: Vec<Splat>,
}

impl View for Instant {
    type V = Seq<SplatModel>;

    /// The recorded splats, oldest first.
    closed spec fn view(&self) -> Seq<SplatModel> {
        self.splats@.map_values(|s: Splat| s@)
    }
}

impl Instant {
    /// The instant holds no more than its capacity.
    pub open spec fn wf(self) -> bool {
        self@.len() <= SPLAT_COUNT
    }

    /// Records one more splat, unless the instant is already full.
    pub fn append(&mut self, splat: Splat) -> (r: Result<(), OutOfSplats>)
        requires
            old(self).wf(),
        ensures
            final(self).wf(),
            r is Ok <==> old(self)@.len() < SPLAT_COUNT,
            r is Ok ==> final(self)@ == old(self)@.push(splat@),
            r is Err ==> final(self)@ == old(self)@,
    {
        if self.splats.len() >= SPLAT_COUNT as usize {
            return Err(OutOfSplats);
        }
        self.splats.push(splat);
        proof {
            assert(self@ =~= old(self)@.push(splat@));
        }
        Ok(())
    }

    /// How many splats are recorded here.
    pub fn filled_count(&self) -> (r: u16)
        requires
            self.wf(),
        ensures
            r == self@.len(),
    {
        self.splats.len() as u16
    }

    /// Read-only view of the recorded splats, oldest first.
    pub fn view_splats(&self) -> (r: &[Splat])
        ensures
            r@.map_values(|s: Splat| s@) == self@,
            r@.len() == self@.len(),
    {
        self.splats.as_slice()
    }
}

impl Default for Instant {
    /// An instant with nothing recorded yet.
    fn default() -> (r: Self)
        ensures
            r@ == Seq::<SplatModel>::empty(),
            r.wf(),
    {
        let inst = Instant { splats: Vec::new() };
        proof {
            assert(inst@ =~= Seq::<SplatModel>::empty());
        }
        inst
    }
}

} // verus!
