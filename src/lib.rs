//! Views over a pair of memory regions, an input region and an output region
//! that is at least as long, which are either one and the same buffer or two
//! separate buffers, together with their partition into fixed-size blocks and
//! one optional padded tail block.
pub mod errors;
pub mod inout_buf;
pub mod padding;
pub mod reserved;

pub use errors::{OutIsTooSmallError, PadError};
pub use inout_buf::InOutBuf;
pub use padding::{PadType, PaddingScheme};
pub use reserved::{InOutBufReserved, PaddedInOutBuf};
