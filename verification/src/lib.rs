//! Typed image buffers (pixel type × colorspace), the command lines and
//! output handling of an external image conversion tool, and the
//! configuration and frame handling of a video capture device.

pub mod color;
pub mod image_buf;
pub mod io;
pub mod text;
pub mod ty;
