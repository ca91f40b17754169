//! The attributes of fields.

use crate::error::DecodeError;
use crate::reader::cpool;
use crate::reader::decoding::{Decode, DecodeInto, Decoder};
use core::marker::PhantomData;
use vstd::prelude::*;

verus! {

/// The content of a `ConstantValue` attribute: the constant that initializes a field.
#[derive(Debug, Clone, Copy)]
pub struct ConstantValue<'input> {
    pub(crate) value: cpool::Index<cpool::Item<'input>>,
    pub(crate) marker: PhantomData<&'input ()>,
}

impl<'input> ConstantValue<'input> {
    pub open(crate) spec fn spec_new(value: cpool::Index<cpool::Item<'input>>) -> ConstantValue<'input> {
        ConstantValue { value, marker: PhantomData }
    }

    pub open(crate) spec fn spec_value(self) -> cpool::Index<cpool::Item<'input>> {
        self.value
    }

    pub fn value(&self) -> (r: cpool::Index<cpool::Item<'input>>)
        ensures
            r == self.spec_value(),
    {
        self.value
    }
}

impl<'input> DecodeInto<'input> for ConstantValue<'input> {
    open spec fn spec_decode_into(decoder: Decoder<'input>) -> Result<ConstantValue<'input>, DecodeError> {
        let (r_value, d1) = <cpool::Index<cpool::Item<'input>> as Decode<'input>>::spec_decode(decoder);
        match r_value {
            Err(e) => Err(e),
            Ok(v_value) => {
                Ok(ConstantValue::spec_new(v_value))
            },
        }
    }

    fn decode_into(decoder: Decoder<'input>) -> (r: Result<ConstantValue<'input>, DecodeError>) {
        let mut decoder = decoder;
        let value: cpool::Index<cpool::Item<'input>> = match decoder.read() {
            Ok(v) => v,
            Err(e) => return Err(e),
        };
        Ok(ConstantValue { value, marker: PhantomData })
    }
}

} // verus!
