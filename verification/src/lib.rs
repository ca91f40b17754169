//! A library for reading java class files.

pub mod descriptor;
pub mod error;
mod header;
pub mod mutf8;
pub mod reader;
mod text;

pub use header::{AccessFlags, Version};
pub use mutf8::{MStr, MString};
