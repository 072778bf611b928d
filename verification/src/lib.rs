//! A read-only view of a file of 16-bit integer samples as a file of
//! 32-bit floating-point samples, converted on demand.
//!
//! The crate holds the request logic of such a filesystem: the translation
//! of a logical read into a physical one, the sample conversion, the
//! attributes of the two entries, name resolution and directory listing.
//! Floating-point values are handled as IEEE-754 bit patterns throughout.

pub mod attr;
pub mod byte_order;
pub mod convert;
pub mod dir;
pub mod error;
pub mod fs;
pub mod namespace;
pub mod sample;
pub mod source;
pub mod window;
