//! The inner-classes attribute: a table of nested-class records, each
//! with its own validated access-flag bitset.

use vstd::prelude::*;

use crate::constant::{pool_get_class_info, pool_get_str, ConstantClassInfo, ConstantPool};
use crate::error::Error;
use crate::flags::{InnerClassAccessFlags, INNER_CLASS_FLAGS_MASK};
use crate::reader::{be_u16_at, can_read, Reader};

verus! {

/// One inner-classes record: three indices and the nested class's
/// access flags. An outer-class index or inner-name index of zero means
/// absent.
#[derive(Debug, Clone, Copy, PartialEq, Eq, Structural)]
pub struct Class {
    pub inner_class_info_index: usize,
    pub outer_class_info_index: usize,
    pub inner_name_index: usize,
    pub inner_class_access_flags: InnerClassAccessFlags,
}

/// Reads one inner-classes record: three indices, then flags that must
/// lie within the inner-class bit set.
pub open spec fn spec_read_inner_class(s: Seq<u8>, pos: int) -> Result<(Class, int), Error> {
    if !can_read(s, pos, 8) {
        Err(Error::Truncation)
    } else {
        let bits = be_u16_at(s, pos + 6);
        if bits & INNER_CLASS_FLAGS_MASK == bits {
            Ok(
                (
                    Class {
                        inner_class_info_index: be_u16_at(s, pos) as usize,
                        outer_class_info_index: be_u16_at(s, pos + 2) as usize,
                        inner_name_index: be_u16_at(s, pos + 4) as usize,
                        inner_class_access_flags: InnerClassAccessFlags { bits },
                    },
                    pos + 8,
                ),
            )
        } else {
            Err(Error::BadAccessFlags(bits))
        }
    }
}

/// Reads `n` inner-classes records in sequence.
pub open spec fn spec_read_inner_class_list(s: Seq<u8>, pos: int, n: int) -> Result<
    (Seq<Class>, int),
    Error,
>
    decreases n,
{
    if n <= 0 {
        Ok((Seq::empty(), pos))
    } else {
        match spec_read_inner_class(s, pos) {
            Err(e) => Err(e),
            Ok(v) => match spec_read_inner_class_list(s, v.1, n - 1) {
                Err(e) => Err(e),
                Ok(w) => Ok((seq![v.0] + w.0, w.1)),
            },
        }
    }
}

/// Reads an inner-classes payload: a 16-bit count, then that many
/// records.
pub open spec fn spec_read_inner_classes(s: Seq<u8>, pos: int) -> Result<
    (Seq<Class>, int),
    Error,
> {
    if !can_read(s, pos, 2) {
        Err(Error::Truncation)
    } else {
        spec_read_inner_class_list(s, pos + 2, be_u16_at(s, pos) as int)
    }
}

/// The inner-classes attribute payload.
#[derive(Debug, Clone, PartialEq, Eq)]
pub struct InnerClassesAttrInfo {
    pub classes: Vec<Class>,
}

impl View for InnerClassesAttrInfo {
    type V = Seq<Class>;

    open spec fn view(&self) -> Seq<Class> {
        self.classes@
    }
}

impl InnerClassesAttrInfo {
    #[verifier::loop_isolation(false)]
    pub fn read(r: &mut Reader, _pool: &ConstantPool) -> (res: Result<
        InnerClassesAttrInfo,
        Error,
    >)
        requires
            old(r).wf(),
        ensures
            final(r).bytes() == old(r).bytes(),
            final(r).wf(),
            old(r).position() <= final(r).position(),
            match spec_read_inner_classes(old(r).bytes(), old(r).position()) {
                Ok(v) => res matches Ok(t) && t@ == v.0 && final(r).position() == v.1,
                Err(e) => res matches Err(e2) && e2 == e,
            },
    {
        let ghost s = old(r).bytes();
        let ghost pos0 = old(r).position();
        let n = match r.read_u16() {
            Ok(v) => v,
            Err(e) => { return Err(e); },
        };
        let mut classes: Vec<Class> = Vec::new();
        let mut i: usize = 0;
        while i < n as usize
            invariant
                r.wf(),
                r.bytes() == s,
                i <= n as usize,
                pos0 + 2 <= r.position(),
                match spec_read_inner_class_list(s, r.position(), n as int - i) {
                    Ok(v) => spec_read_inner_class_list(s, pos0 + 2, n as int) == Ok::<_, Error>(
                        (classes@ + v.0, v.1),
                    ),
                    Err(e) => spec_read_inner_class_list(s, pos0 + 2, n as int) == Err::<
                        (Seq<Class>, int),
                        _,
                    >(e),
                },
            decreases n as int - i,
        {
            let ghost p_before = r.position();
            let class = match Class::read(r) {
                Ok(v) => v,
                Err(e) => { return Err(e); },
            };
            proof {
                match spec_read_inner_class_list(s, r.position(), n as int - i - 1) {
                    Ok(v) => {
                        assert(spec_read_inner_class_list(s, p_before, n as int - i) == Ok::<
                            _,
                            Error,
                        >((seq![class] + v.0, v.1)));
                        assert(classes@.push(class) + v.0 =~= classes@ + (seq![class] + v.0));
                    },
                    Err(_) => {},
                }
            }
            classes.push(class);
            i = i + 1;
        }
        proof {
            assert(classes@ + Seq::<Class>::empty() =~= classes@);
        }
        Ok(InnerClassesAttrInfo { classes })
    }
}

impl Class {
    pub fn read(r: &mut Reader) -> (res: Result<Class, Error>)
        requires
            old(r).wf(),
        ensures
            final(r).bytes() == old(r).bytes(),
            final(r).wf(),
            old(r).position() <= final(r).position(),
            match spec_read_inner_class(old(r).bytes(), old(r).position()) {
                Ok(v) => res matches Ok(c) && c == v.0 && final(r).position() == v.1,
                Err(e) => res matches Err(e2) && e2 == e,
            },
    {
        let inner_class_info_index = match r.read_u16() {
            Ok(v) => v,
            Err(e) => { return Err(e); },
        };
        let outer_class_info_index = match r.read_u16() {
            Ok(v) => v,
            Err(e) => { return Err(e); },
        };
        let inner_name_index = match r.read_u16() {
            Ok(v) => v,
            Err(e) => { return Err(e); },
        };
        let bits = match r.read_u16() {
            Ok(v) => v,
            Err(e) => { return Err(e); },
        };
        let inner_class_access_flags = match InnerClassAccessFlags::from_bits(bits) {
            Some(flags) => flags,
            None => { return Err(Error::BadAccessFlags(bits)); },
        };
        Ok(
            Class {
                inner_class_info_index: inner_class_info_index as usize,
                outer_class_info_index: outer_class_info_index as usize,
                inner_name_index: inner_name_index as usize,
                inner_class_access_flags,
            },
        )
    }

    /// The nested class itself, resolved through the pool.
    pub fn inner_class_info<'a>(&self, constant_pool: &'a ConstantPool) -> (r: Option<
        &'a ConstantClassInfo,
    >)
        ensures
            match r {
                Some(c) => pool_get_class_info(
                    constant_pool@,
                    self.inner_class_info_index as int,
                ) == Some(*c),
                None => pool_get_class_info(constant_pool@, self.inner_class_info_index as int)
                    is None,
            },
    {
        constant_pool.get_class_info(self.inner_class_info_index)
    }

    /// The enclosing class; absent when the index is zero.
    pub fn outer_class_info<'a>(&self, constant_pool: &'a ConstantPool) -> (r: Option<
        &'a ConstantClassInfo,
    >)
        ensures
            match r {
                Some(c) => self.outer_class_info_index != 0 && pool_get_class_info(
                    constant_pool@,
                    self.outer_class_info_index as int,
                ) == Some(*c),
                None => self.outer_class_info_index == 0 || pool_get_class_info(
                    constant_pool@,
                    self.outer_class_info_index as int,
                ) is None,
            },
    {
        if self.outer_class_info_index != 0 {
            constant_pool.get_class_info(self.outer_class_info_index)
        } else {
            None
        }
    }

    /// The simple name of the nested class; absent when the index is
    /// zero (an anonymous class).
    pub fn inner_name<'a>(&self, constant_pool: &'a ConstantPool) -> (r: Option<&'a str>)
        ensures
            match r {
                Some(s) => self.inner_name_index != 0 && pool_get_str(
                    constant_pool@,
                    self.inner_name_index as int,
                ) == Some(s@),
                None => self.inner_name_index == 0 || pool_get_str(
                    constant_pool@,
                    self.inner_name_index as int,
                ) is None,
            },
    {
        if self.inner_name_index != 0 {
            constant_pool.get_str(self.inner_name_index)
        } else {
            None
        }
    }
}

} // verus!
