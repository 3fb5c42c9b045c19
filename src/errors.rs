use vstd::prelude::*;

verus! {

/// The output region is shorter than the input region.
#[derive(Clone, Copy, Debug, PartialEq, Eq, Structural)]
pub struct OutIsTooSmallError;

/// The input length does not suit the padding scheme, or the output region
/// has no room left for the padded tail block.
#[derive(Clone, Copy, Debug, PartialEq, Eq, Structural)]
pub struct PadError;

} // verus!
