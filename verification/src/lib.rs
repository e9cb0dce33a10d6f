//! Decoder for packed game-asset archives.
//!
//! An archive stores each entry as a sequence of independently compressed or
//! raw data blocks. Entries come in three on-disk shapes — standard files,
//! multi-resolution textures, and 3D models — each with its own block-location
//! scheme. The `dat` module holds the block codec and the three shape-specific
//! reconstructors; the remaining modules hold the plain data types that
//! surround them (texture containers, character metadata records, mod-pack
//! descriptions).

pub mod bytes;
pub mod dat;
pub mod equipslots;
pub mod gamedata;
pub mod interop;
pub mod meta;
pub mod modpack;
pub mod texfile;

