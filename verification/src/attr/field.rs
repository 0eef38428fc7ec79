//! The field-level constant-value attribute.

use vstd::prelude::*;

use crate::constant::{pool_get, ConstantPool, ConstantPoolEntry};
use crate::error::Error;
use crate::reader::{be_u16_at, can_read, Reader};

verus! {

/// A constant-value attribute: one index into the pool.
#[derive(Debug, Clone, Copy, PartialEq, Eq, Structural)]
pub struct ConstantValueAttrInfo {
    pub value_index: usize,
}

/// Reads a constant-value attribute payload: one index.
pub open spec fn spec_read_constant_value(s: Seq<u8>, pos: int) -> Result<
    (ConstantValueAttrInfo, int),
    Error,
> {
    if can_read(s, pos, 2) {
        Ok((ConstantValueAttrInfo { value_index: be_u16_at(s, pos) as usize }, pos + 2))
    } else {
        Err(Error::Truncation)
    }
}

impl ConstantValueAttrInfo {
    pub fn read(r: &mut Reader, _pool: &ConstantPool) -> (res: Result<
        ConstantValueAttrInfo,
        Error,
    >)
        requires
            old(r).wf(),
        ensures
            final(r).bytes() == old(r).bytes(),
            final(r).wf(),
            old(r).position() <= final(r).position(),
            match spec_read_constant_value(old(r).bytes(), old(r).position()) {
                Ok(v) => res matches Ok(c) && c == v.0 && final(r).position() == v.1,
                Err(e) => res matches Err(e2) && e2 == e,
            },
    {
        let value_index = match r.read_u16() {
            Ok(v) => v,
            Err(e) => { return Err(e); },
        };
        Ok(ConstantValueAttrInfo { value_index: value_index as usize })
    }

    /// The referenced entry, whatever its kind.
    pub fn value<'a>(&self, pool: &'a ConstantPool) -> (r: Option<&'a ConstantPoolEntry>)
        ensures
            match r {
                Some(e) => pool_get(pool@, self.value_index as int) == Some(e@),
                None => pool_get(pool@, self.value_index as int) is None,
            },
    {
        pool.get(self.value_index)
    }
}

} // verus!
