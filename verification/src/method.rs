//! Method records: access flags, name and descriptor indices, and an
//! attribute list.

use vstd::prelude::*;

use crate::attr::{attrs_view, read_attrs, spec_read_attrs, Attr, SpecAttr};
use crate::constant::{pool_get_str, ConstantPool, SpecEntry};
use crate::error::Error;
use crate::flags::{MethodAccessFlags, METHOD_FLAGS_MASK};
use crate::reader::{be_u16_at, can_read, Reader};

verus! {

/// One method of a class.
#[derive(Debug, PartialEq, Eq)]
pub struct MethodInfo {
    pub access_flags: MethodAccessFlags,
    pub name_index: usize,
    pub desc_index: usize,
    pub attrs: Vec<Attr>,
}

/// The mathematical model of a method record.
pub struct SpecMethodInfo {
    pub access_flags: MethodAccessFlags,
    pub name_index: usize,
    pub desc_index: usize,
    pub attrs: Seq<SpecAttr>,
}

pub open spec fn method_info_view(f: MethodInfo) -> SpecMethodInfo
    decreases f,
{
    SpecMethodInfo {
        access_flags: f.access_flags,
        name_index: f.name_index,
        desc_index: f.desc_index,
        attrs: attrs_view(f.attrs@),
    }
}

pub open spec fn method_infos_view(s: Seq<MethodInfo>) -> Seq<SpecMethodInfo>
    decreases s,
{
    if s.len() == 0 {
        Seq::empty()
    } else {
        method_infos_view(s.drop_last()).push(method_info_view(s.last()))
    }
}

impl View for MethodInfo {
    type V = SpecMethodInfo;

    open spec fn view(&self) -> SpecMethodInfo {
        method_info_view(*self)
    }
}

pub(crate) proof fn lemma_method_infos_view_push(s: Seq<MethodInfo>, f: MethodInfo)
    ensures
        method_infos_view(s.push(f)) == method_infos_view(s).push(method_info_view(f)),
{
    assert(s.push(f).drop_last() =~= s);
    assert(s.push(f).last() == f);
}

/// Reads one method record: flags that must lie within the method bit
/// set, a name index, a descriptor index, then its attribute list.
pub open spec fn spec_read_method_info(s: Seq<u8>, pos: int, pool: Seq<SpecEntry>) -> Result<
    (SpecMethodInfo, int),
    Error,
> {
    if !can_read(s, pos, 2) {
        Err(Error::Truncation)
    } else {
        let bits = be_u16_at(s, pos);
        if bits & METHOD_FLAGS_MASK != bits {
            Err(Error::BadAccessFlags(bits))
        } else if !can_read(s, pos + 2, 6) {
            Err(Error::Truncation)
        } else {
            match spec_read_attrs(s, pos + 8, be_u16_at(s, pos + 6) as int, pool) {
                Err(e) => Err(e),
                Ok(at) => Ok(
                    (
                        SpecMethodInfo {
                            access_flags: MethodAccessFlags { bits },
                            name_index: be_u16_at(s, pos + 2) as usize,
                            desc_index: be_u16_at(s, pos + 4) as usize,
                            attrs: at.0,
                        },
                        at.1,
                    ),
                ),
            }
        }
    }
}

/// Reads `n` method records in sequence.
pub open spec fn spec_read_method_infos(s: Seq<u8>, pos: int, n: int, pool: Seq<SpecEntry>) -> Result<
    (Seq<SpecMethodInfo>, int),
    Error,
>
    decreases n,
{
    if n <= 0 {
        Ok((Seq::empty(), pos))
    } else {
        match spec_read_method_info(s, pos, pool) {
            Err(e) => Err(e),
            Ok(v) => match spec_read_method_infos(s, v.1, n - 1, pool) {
                Err(e) => Err(e),
                Ok(w) => Ok((seq![v.0] + w.0, w.1)),
            },
        }
    }
}

impl MethodInfo {
    pub fn read(r: &mut Reader, cp: &ConstantPool) -> (res: Result<MethodInfo, Error>)
        requires
            old(r).wf(),
        ensures
            final(r).bytes() == old(r).bytes(),
            final(r).wf(),
            old(r).position() <= final(r).position(),
            match spec_read_method_info(old(r).bytes(), old(r).position(), cp@) {
                Ok(v) => res matches Ok(f) && f@ == v.0 && final(r).position() == v.1,
                Err(e) => res matches Err(e2) && e2 == e,
            },
    {
        let bits = match r.read_u16() {
            Ok(v) => v,
            Err(e) => { return Err(e); },
        };
        let access_flags = match MethodAccessFlags::from_bits(bits) {
            Some(flags) => flags,
            None => { return Err(Error::BadAccessFlags(bits)); },
        };
        let name_index = match r.read_u16() {
            Ok(v) => v,
            Err(e) => { return Err(e); },
        };
        let desc_index = match r.read_u16() {
            Ok(v) => v,
            Err(e) => { return Err(e); },
        };
        let attrs_count = match r.read_u16() {
            Ok(v) => v,
            Err(e) => { return Err(e); },
        };
        let mut attrs: Vec<Attr> = Vec::new();
        match read_attrs(r, attrs_count, cp, &mut attrs) {
            Ok(()) => {
                proof {
                    assert(attrs_view(Seq::<Attr>::empty()) + attrs_view(attrs@)
                        =~= attrs_view(attrs@));
                }
                Ok(
                    MethodInfo {
                        access_flags,
                        name_index: name_index as usize,
                        desc_index: desc_index as usize,
                        attrs,
                    },
                )
            },
            Err(e) => Err(e),
        }
    }

    /// The method's name, resolved through the pool.
    pub fn name<'a>(&self, pool: &'a ConstantPool) -> (r: Option<&'a str>)
        ensures
            match r {
                Some(s) => pool_get_str(pool@, self.name_index as int) == Some(s@),
                None => pool_get_str(pool@, self.name_index as int) is None,
            },
    {
        pool.get_str(self.name_index)
    }

    /// The method's descriptor, resolved through the pool.
    pub fn desc<'a>(&self, pool: &'a ConstantPool) -> (r: Option<&'a str>)
        ensures
            match r {
                Some(s) => pool_get_str(pool@, self.desc_index as int) == Some(s@),
                None => pool_get_str(pool@, self.desc_index as int) is None,
            },
    {
        pool.get_str(self.desc_index)
    }
}

} // verus!
