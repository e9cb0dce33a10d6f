//! The archive decoder: block codec, entry headers, and the three
//! shape-specific reconstructors.

pub mod datfile;
pub mod inflate;
pub mod model;
pub mod shared;
pub mod standard;
pub mod tex;
