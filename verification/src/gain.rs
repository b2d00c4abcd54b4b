//! Software gain. The engine holds the gain as the bits of a 32 bit
//! floating point number and never computes with it: the products are the
//! caller's, who is told by `Action::Scale` where to apply them.

use vstd::prelude::*;

verus! {

/// The gain that stands for "no gain": the bits of minus one.
pub const NO_GAIN: u32 = 0xBF80_0000;

} // verus!
