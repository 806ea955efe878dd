//! Verified core of `cargo nuttx`: the rules that turn a Cargo workspace, its
//! `[package.metadata.nuttx]` table and the command line into the files,
//! commands and paths that build a Rust crate into an Apache NuttX firmware image.

pub mod cargo;
pub mod casing;
pub mod cli;
pub mod fs_model;
pub mod metadata;
pub mod paths;
pub mod shim;
pub mod text;
pub mod nuttx;
