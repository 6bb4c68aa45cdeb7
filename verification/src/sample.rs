//! The unit of captured controller state: one sample per poll tick, holding a
//! timestamp, a direction code and the bitmask of buttons currently down.

use vstd::prelude::*;

verus! {

/// Which controller protocol a backend speaks.
#[derive(Clone, Copy, Debug, PartialEq, Eq, Structural)]
pub enum NativeInputMode {
    XInput,
    Hid,
}

/// One poll's captured state. A sample is constructed fresh on every tick and
/// never mutated afterwards.
#[derive(Clone, Copy, Debug, PartialEq, Eq, Structural)]
pub struct InputSample {
    pub timestamp_ms: u64,
    pub direction: u8,
    pub down_mask: u16,
}

/// A sample is well formed when its direction is one of the nine keypad
/// codes; any bitmask, including all-zero, is valid.
pub open spec fn sample_wf(sample: InputSample) -> bool {
    1 <= sample.direction <= 9
}

/// The sample a source degrades to on protocol noise: neutral direction,
/// no buttons down, stamped with the given time.
pub open spec fn neutral_spec(timestamp_ms: u64) -> InputSample {
    InputSample { timestamp_ms, direction: 5, down_mask: 0 }
}

impl InputSample {
    /// Builds the neutral sample for the given timestamp.
    pub fn neutral(timestamp_ms: u64) -> (sample: Self)
        ensures
            sample == neutral_spec(timestamp_ms),
            sample_wf(sample),
    {
        Self { timestamp_ms, direction: 5, down_mask: 0 }
    }
}

} // verus!
