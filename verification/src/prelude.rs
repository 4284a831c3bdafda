//! Common imports for working with the library ergonomically.

pub use crate::pack::{Pack, PackRef, Unpack, UnpackBuf};
pub use crate::raw::{ByteBuf, Chunks, Raw};
pub use crate::trust::{TrustedData, Untrusted, UntrustedData, Validate, ValidationError};
pub use core::str::FromStr;
