//! Reading class files.

pub mod attributes;
mod class;
pub mod cpool;
pub mod decoding;
mod interfaces;
mod items;

pub use attributes::{Attribute, AttributeContent, AttributeIter, Attributes};
pub use class::{read_header, Class};
pub use decoding::{DecodeCounted, DecodeCountedCopy, DecodeMany, DecodeManyIter};
pub use interfaces::InterfaceIter;
pub use items::{Field, FieldIter, Method, MethodIter};
