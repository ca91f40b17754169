//! The interfaces that a class implements.

use crate::reader::cpool;
use crate::reader::decoding::DecodeManyIter;
use vstd::prelude::*;

verus! {

/// An iterator over the indices of the interfaces that a class implements.
pub type InterfaceIter<'input> = DecodeManyIter<'input, cpool::Index<cpool::Class>, u16>;

} // verus!
