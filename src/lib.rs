//! Binary codec for a small framed message protocol.
//!
//! A frame is a fixed 21-byte header followed by an opaque body. The
//! header carries a magic marker, a protocol version, a message-type tag,
//! a flags byte, an 8-byte device identifier and a big-endian counter.
//! Decoding validates each field in wire order and reports the first rule
//! that the input breaks; encoding cannot fail.
pub mod error;
pub mod flags;
pub mod frame;
pub mod header;
pub mod msg_type;

pub use error::DecodeError;
pub use flags::Flags;
pub use frame::FrameV1;
pub use header::{FrameHeaderV1, HEADER_LEN_V1, MAGIC, VERSION_V1};
pub use msg_type::MsgType;
