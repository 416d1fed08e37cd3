//! Decisions and text helpers behind initialising a mobile build environment:
//! the template helpers, path prefixing, the build-target override store and the
//! ordered initialisation sequence.

pub mod text;
pub mod paths;
pub mod table;
pub mod context;
pub mod helpers;
pub mod dot_cargo;
pub mod init;

pub use init::{Error, Options};
