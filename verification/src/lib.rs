//! Decode a PNG into an in-memory buffer of RGB pixels under explicit
//! resource limits, apply simple per-pixel colour transforms, and encode the
//! result back to 8-bit RGB PNG bytes.

pub mod image;
pub mod limits;
pub mod png_io;
pub mod rgb;
