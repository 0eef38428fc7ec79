//! Field records: access flags, name and descriptor indices, and an
//! attribute list.

use vstd::prelude::*;

use crate::attr::{attrs_view, read_attrs, spec_read_attrs, Attr, SpecAttr};
use crate::constant::{pool_get_str, ConstantPool, SpecEntry};
use crate::error::Error;
use crate::flags::{FieldAccessFlags, FIELD_FLAGS_MASK};
use crate::reader::{be_u16_at, can_read, Reader};

verus! {

/// One field of a class.
#[derive(Debug, PartialEq, Eq)]
pub struct FieldInfo {
    pub access_flags: FieldAccessFlags,
    pub name_index: usize,
    pub desc_index: usize,
    pub attrs: Vec<Attr>,
}

/// The mathematical model of a field record.
pub struct SpecFieldInfo {
    pub access_flags: FieldAccessFlags,
    pub name_index: usize,
    pub desc_index: usize,
    pub attrs: Seq<SpecAttr>,
}

pub open spec fn field_info_view(f: FieldInfo) -> SpecFieldInfo
    decreases f,
{
    SpecFieldInfo {
        access_flags: f.access_flags,
        name_index: f.name_index,
        desc_index: f.desc_index,
        attrs: attrs_view(f.attrs@),
    }
}

pub open spec fn field_infos_view(s: Seq<FieldInfo>) -> Seq<SpecFieldInfo>
    decreases s,
{
    if s.len() == 0 {
        Seq::empty()
    } else {
        field_infos_view(s.drop_last()).push(field_info_view(s.last()))
    }
}

impl View for FieldInfo {
    type V = SpecFieldInfo;

    open spec fn view(&self) -> SpecFieldInfo {
        field_info_view(*self)
    }
}

pub(crate) proof fn lemma_field_infos_view_push(s: Seq<FieldInfo>, f: FieldInfo)
    ensures
        field_infos_view(s.push(f)) == field_infos_view(s).push(field_info_view(f)),
{
    assert(s.push(f).drop_last() =~= s);
    assert(s.push(f).last() == f);
}

/// Reads one field record: flags that must lie within the field bit
/// set, a name index, a descriptor index, then its attribute list.
pub open spec fn spec_read_field_info(s: Seq<u8>, pos: int, pool: Seq<SpecEntry>) -> Result<
    (SpecFieldInfo, int),
    Error,
> {
    if !can_read(s, pos, 2) {
        Err(Error::Truncation)
    } else {
        let bits = be_u16_at(s, pos);
        if bits & FIELD_FLAGS_MASK != bits {
            Err(Error::BadAccessFlags(bits))
        } else if !can_read(s, pos + 2, 6) {
            Err(Error::Truncation)
        } else {
            match spec_read_attrs(s, pos + 8, be_u16_at(s, pos + 6) as int, pool) {
                Err(e) => Err(e),
                Ok(at) => Ok(
                    (
                        SpecFieldInfo {
                            access_flags: FieldAccessFlags { bits },
                            name_index: be_u16_at(s, pos + 2) as usize,
                            desc_index: be_u16_at(s, pos + 4) as usize,
                            attrs: at.0,
                        },
                        at.1,
                    ),
                ),
            }
        }
    }
}

/// Reads `n` field records in sequence.
pub open spec fn spec_read_field_infos(s: Seq<u8>, pos: int, n: int, pool: Seq<SpecEntry>) -> Result<
    (Seq<SpecFieldInfo>, int),
    Error,
>
    decreases n,
{
    if n <= 0 {
        Ok((Seq::empty(), pos))
    } else {
        match spec_read_field_info(s, pos, pool) {
            Err(e) => Err(e),
            Ok(v) => match spec_read_field_infos(s, v.1, n - 1, pool) {
                Err(e) => Err(e),
                Ok(w) => Ok((seq![v.0] + w.0, w.1)),
            },
        }
    }
}

impl FieldInfo {
    pub fn read(r: &mut Reader, cp: &ConstantPool) -> (res: Result<FieldInfo, Error>)
        requires
            old(r).wf(),
        ensures
            final(r).bytes() == old(r).bytes(),
            final(r).wf(),
            old(r).position() <= final(r).position(),
            match spec_read_field_info(old(r).bytes(), old(r).position(), cp@) {
                Ok(v) => res matches Ok(f) && f@ == v.0 && final(r).position() == v.1,
                Err(e) => res matches Err(e2) && e2 == e,
            },
    {
        let bits = match r.read_u16() {
            Ok(v) => v,
            Err(e) => { return Err(e); },
        };
        let access_flags = match FieldAccessFlags::from_bits(bits) {
            Some(flags) => flags,
            None => { return Err(Error::BadAccessFlags(bits)); },
        };
        let name_index = match r.read_u16() {
            Ok(v) => v,
            Err(e) => { return Err(e); },
        };
        let desc_index = match r.read_u16() {
            Ok(v) => v,
            Err(e) => { return Err(e); },
        };
        let attrs_count = match r.read_u16() {
            Ok(v) => v,
            Err(e) => { return Err(e); },
        };
        let mut attrs: Vec<Attr> = Vec::new();
        match read_attrs(r, attrs_count, cp, &mut attrs) {
            Ok(()) => {
                proof {
                    assert(attrs_view(Seq::<Attr>::empty()) + attrs_view(attrs@)
                        =~= attrs_view(attrs@));
                }
                Ok(
                    FieldInfo {
                        access_flags,
                        name_index: name_index as usize,
                        desc_index: desc_index as usize,
                        attrs,
                    },
                )
            },
            Err(e) => Err(e),
        }
    }

    /// The field's name, resolved through the pool.
    pub fn name<'a>(&self, pool: &'a ConstantPool) -> (r: Option<&'a str>)
        ensures
            match r {
                Some(s) => pool_get_str(pool@, self.name_index as int) == Some(s@),
                None => pool_get_str(pool@, self.name_index as int) is None,
            },
    {
        pool.get_str(self.name_index)
    }

    /// The field's descriptor, resolved through the pool.
    pub fn desc<'a>(&self, pool: &'a ConstantPool) -> (r: Option<&'a str>)
        ensures
            match r {
                Some(s) => pool_get_str(pool@, self.desc_index as int) == Some(s@),
                None => pool_get_str(pool@, self.desc_index as int) is None,
            },
    {
        pool.get_str(self.desc_index)
    }
}

} // verus!
