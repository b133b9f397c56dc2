pub mod blocks;
pub mod convert;
pub mod format;
pub mod laws;
pub mod pixels;
