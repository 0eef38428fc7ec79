//! Marker and signature attributes.

use vstd::prelude::*;

use crate::constant::{pool_get_str, ConstantPool};
use crate::error::Error;
use crate::reader::{be_u16_at, can_read, Reader};

verus! {

/// The synthetic marker attribute; its payload is empty.
#[derive(Debug, Clone, Copy, PartialEq, Eq, Structural)]
pub struct SyntheticAttrInfo;

impl SyntheticAttrInfo {
    /// Reads nothing: the marker carries no payload.
    pub fn read(r: &mut Reader, _pool: &ConstantPool) -> (res: Result<SyntheticAttrInfo, Error>)
        requires
            old(r).wf(),
        ensures
            *final(r) == *old(r),
            res matches Ok(i) && i == SyntheticAttrInfo,
    {
        let _ = r;
        Ok(SyntheticAttrInfo)
    }
}

/// The deprecated marker attribute; its payload is empty.
#[derive(Debug, Clone, Copy, PartialEq, Eq, Structural)]
pub struct DeprecatedAttrInfo;

impl DeprecatedAttrInfo {
    /// Reads nothing: the marker carries no payload.
    pub fn read(r: &mut Reader, _pool: &ConstantPool) -> (res: Result<DeprecatedAttrInfo, Error>)
        requires
            old(r).wf(),
        ensures
            *final(r) == *old(r),
            res matches Ok(i) && i == DeprecatedAttrInfo,
    {
        let _ = r;
        Ok(DeprecatedAttrInfo)
    }
}

/// A generic-signature attribute: one `Utf8` index.
#[derive(Debug, Clone, Copy, PartialEq, Eq, Structural)]
pub struct SignatureAttrInfo {
    pub index: usize,
}

/// Reads a signature attribute payload: one index.
pub open spec fn spec_read_signature(s: Seq<u8>, pos: int) -> Result<
    (SignatureAttrInfo, int),
    Error,
> {
    if can_read(s, pos, 2) {
        Ok((SignatureAttrInfo { index: be_u16_at(s, pos) as usize }, pos + 2))
    } else {
        Err(Error::Truncation)
    }
}

impl SignatureAttrInfo {
    pub fn read(r: &mut Reader, _pool: &ConstantPool) -> (res: Result<SignatureAttrInfo, Error>)
        requires
            old(r).wf(),
        ensures
            final(r).bytes() == old(r).bytes(),
            final(r).wf(),
            old(r).position() <= final(r).position(),
            match spec_read_signature(old(r).bytes(), old(r).position()) {
                Ok(v) => res matches Ok(c) && c == v.0 && final(r).position() == v.1,
                Err(e) => res matches Err(e2) && e2 == e,
            },
    {
        let index = match r.read_u16() {
            Ok(v) => v,
            Err(e) => { return Err(e); },
        };
        Ok(SignatureAttrInfo { index: index as usize })
    }

    /// The signature text, resolved through the pool.
    pub fn value<'a>(&self, constant_pool: &'a ConstantPool) -> (r: Option<&'a str>)
        ensures
            match r {
                Some(s) => pool_get_str(constant_pool@, self.index as int) == Some(s@),
                None => pool_get_str(constant_pool@, self.index as int) is None,
            },
    {
        constant_pool.get_str(self.index)
    }
}

} // verus!
