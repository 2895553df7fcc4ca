//! Points in a command stream at which GPU counters can be sampled.

use vstd::prelude::*;

verus! {

/// A boundary at which a counter sample can be taken.
#[derive(Clone, Copy, Debug, PartialEq, Eq, Structural)]
pub enum CounterSamplingPoint {
    AtStageBoundary,
    AtDrawBoundary,
    AtDispatchBoundary,
    AtTileBoundary,
    AtBlitBoundary,
}

impl CounterSamplingPoint {
    /// The value Metal uses for this variant.
    pub open spec fn raw_value(self) -> usize {
        match self {
            CounterSamplingPoint::AtStageBoundary => 0,
            CounterSamplingPoint::AtDrawBoundary => 1,
            CounterSamplingPoint::AtDispatchBoundary => 2,
            CounterSamplingPoint::AtTileBoundary => 3,
            CounterSamplingPoint::AtBlitBoundary => 4,
        }
    }

    /// The value handed to Metal for this variant.
    pub fn as_raw(self) -> (r: usize)
        ensures
            r == self.raw_value(),
            self == CounterSamplingPoint::AtStageBoundary ==> r == 0,
            self == CounterSamplingPoint::AtDrawBoundary ==> r == 1,
            self == CounterSamplingPoint::AtDispatchBoundary ==> r == 2,
            self == CounterSamplingPoint::AtTileBoundary ==> r == 3,
            self == CounterSamplingPoint::AtBlitBoundary ==> r == 4,
    {
        match self {
            CounterSamplingPoint::AtStageBoundary => 0,
            CounterSamplingPoint::AtDrawBoundary => 1,
            CounterSamplingPoint::AtDispatchBoundary => 2,
            CounterSamplingPoint::AtTileBoundary => 3,
            CounterSamplingPoint::AtBlitBoundary => 4,
        }
    }

    /// Distinct variants have distinct raw values.
    pub proof fn lemma_raw_value_injective(a: CounterSamplingPoint, b: CounterSamplingPoint)
        ensures
            a.raw_value() == b.raw_value() <==> a == b,
    {
    }
}

impl CounterSamplingPoint {
    /// The sampling points in the order Metal numbers them: stage, draw, dispatch, tile, blit.
    pub open spec fn metal_order() -> Seq<CounterSamplingPoint> {
        seq![CounterSamplingPoint::AtStageBoundary, CounterSamplingPoint::AtDrawBoundary, CounterSamplingPoint::AtDispatchBoundary, CounterSamplingPoint::AtTileBoundary, CounterSamplingPoint::AtBlitBoundary]
    }

    /// Metal numbers these variants from 0 in the order of `metal_order`:
    /// the raw value of each is its position there.
    pub proof fn lemma_raw_value_is_position(e: CounterSamplingPoint)
        ensures
            0 <= e.raw_value() < CounterSamplingPoint::metal_order().len(),
            CounterSamplingPoint::metal_order()[e.raw_value() as int] == e,
            forall|i: int|
                0 <= i < CounterSamplingPoint::metal_order().len() ==> #[trigger] CounterSamplingPoint::metal_order()[i].raw_value() == i,
    {
        let o = CounterSamplingPoint::metal_order();
        assert forall|i: int| 0 <= i < o.len() implies #[trigger] o[i].raw_value() == i by {
            if i == 0 { assert(o[0] == CounterSamplingPoint::AtStageBoundary); }
            if i == 1 { assert(o[1] == CounterSamplingPoint::AtDrawBoundary); }
            if i == 2 { assert(o[2] == CounterSamplingPoint::AtDispatchBoundary); }
            if i == 3 { assert(o[3] == CounterSamplingPoint::AtTileBoundary); }
            if i == 4 { assert(o[4] == CounterSamplingPoint::AtBlitBoundary); }
        }
        assert(o[0] == CounterSamplingPoint::AtStageBoundary);
        assert(o[1] == CounterSamplingPoint::AtDrawBoundary);
        assert(o[2] == CounterSamplingPoint::AtDispatchBoundary);
        assert(o[3] == CounterSamplingPoint::AtTileBoundary);
        assert(o[4] == CounterSamplingPoint::AtBlitBoundary);
    }
}

} // verus!
