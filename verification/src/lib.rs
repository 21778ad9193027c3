pub mod error;
pub mod frame;
pub mod tag;
pub mod util;
pub mod zlib;
