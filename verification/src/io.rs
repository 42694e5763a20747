//! Adapters to the outside: the external image conversion tool and the
//! video capture device.

pub mod magick;
pub mod v4l;
