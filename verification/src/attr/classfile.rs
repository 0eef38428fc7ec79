//! Class-level attributes: source file, enclosing method, and the
//! source debug extension.

use vstd::prelude::*;
use vstd::utf8::{decode_utf8, valid_utf8};

use crate::constant::{
    pool_get, pool_get_class_info, pool_get_str, ConstantClassInfo, ConstantNameAndTypeInfo,
    ConstantPool, ConstantPoolEntry, SpecEntry,
};
use crate::error::Error;
use crate::reader::{be_u16_at, can_read, Reader};
use crate::text::string_from_utf8;

verus! {

/// A source-file attribute: one `Utf8` index.
#[derive(Debug, Clone, Copy, PartialEq, Eq, Structural)]
pub struct SourceFileAttrInfo {
    pub sourcefile_index: usize,
}

/// Reads a source-file attribute payload: one index.
pub open spec fn spec_read_source_file(s: Seq<u8>, pos: int) -> Result<
    (SourceFileAttrInfo, int),
    Error,
> {
    if can_read(s, pos, 2) {
        Ok((SourceFileAttrInfo { sourcefile_index: be_u16_at(s, pos) as usize }, pos + 2))
    } else {
        Err(Error::Truncation)
    }
}

impl SourceFileAttrInfo {
    pub fn read(r: &mut Reader, _pool: &ConstantPool) -> (res: Result<SourceFileAttrInfo, Error>)
        requires
            old(r).wf(),
        ensures
            final(r).bytes() == old(r).bytes(),
            final(r).wf(),
            old(r).position() <= final(r).position(),
            match spec_read_source_file(old(r).bytes(), old(r).position()) {
                Ok(v) => res matches Ok(c) && c == v.0 && final(r).position() == v.1,
                Err(e) => res matches Err(e2) && e2 == e,
            },
    {
        let sourcefile_index = match r.read_u16() {
            Ok(v) => v,
            Err(e) => { return Err(e); },
        };
        Ok(SourceFileAttrInfo { sourcefile_index: sourcefile_index as usize })
    }

    /// The source file name, resolved through the pool.
    pub fn sourcefile<'a>(&self, constant_pool: &'a ConstantPool) -> (r: Option<&'a str>)
        ensures
            match r {
                Some(s) => pool_get_str(constant_pool@, self.sourcefile_index as int) == Some(s@),
                None => pool_get_str(constant_pool@, self.sourcefile_index as int) is None,
            },
    {
        constant_pool.get_str(self.sourcefile_index)
    }
}

/// An enclosing-method attribute: a class index and an optional
/// name-and-type index (zero when absent).
#[derive(Debug, Clone, Copy, PartialEq, Eq, Structural)]
pub struct EnclosingMethodAttrInfo {
    pub class_index: usize,
    pub method_index: usize,
}

/// Reads an enclosing-method attribute payload: two indices.
pub open spec fn spec_read_enclosing_method(s: Seq<u8>, pos: int) -> Result<
    (EnclosingMethodAttrInfo, int),
    Error,
> {
    if can_read(s, pos, 4) {
        Ok(
            (
                EnclosingMethodAttrInfo {
                    class_index: be_u16_at(s, pos) as usize,
                    method_index: be_u16_at(s, pos + 2) as usize,
                },
                pos + 4,
            ),
        )
    } else {
        Err(Error::Truncation)
    }
}

impl EnclosingMethodAttrInfo {
    pub fn read(r: &mut Reader, _pool: &ConstantPool) -> (res: Result<
        EnclosingMethodAttrInfo,
        Error,
    >)
        requires
            old(r).wf(),
        ensures
            final(r).bytes() == old(r).bytes(),
            final(r).wf(),
            old(r).position() <= final(r).position(),
            match spec_read_enclosing_method(old(r).bytes(), old(r).position()) {
                Ok(v) => res matches Ok(c) && c == v.0 && final(r).position() == v.1,
                Err(e) => res matches Err(e2) && e2 == e,
            },
    {
        let class_index = match r.read_u16() {
            Ok(v) => v,
            Err(e) => { return Err(e); },
        };
        let method_index = match r.read_u16() {
            Ok(v) => v,
            Err(e) => { return Err(e); },
        };
        Ok(
            EnclosingMethodAttrInfo {
                class_index: class_index as usize,
                method_index: method_index as usize,
            },
        )
    }

    /// The enclosing class, resolved through the pool.
    pub fn class<'a>(&self, constant_pool: &'a ConstantPool) -> (r: Option<&'a ConstantClassInfo>)
        ensures
            match r {
                Some(c) => pool_get_class_info(constant_pool@, self.class_index as int) == Some(
                    *c,
                ),
                None => pool_get_class_info(constant_pool@, self.class_index as int) is None,
            },
    {
        constant_pool.get_class_info(self.class_index)
    }

    /// The enclosing method's name and type; absent when the index is
    /// zero or does not hold a name-and-type entry.
    pub fn method<'a>(&self, constant_pool: &'a ConstantPool) -> (r: Option<
        &'a ConstantNameAndTypeInfo,
    >)
        ensures
            match r {
                Some(i) => self.method_index != 0 && pool_get(
                    constant_pool@,
                    self.method_index as int,
                ) == Some(SpecEntry::NameAndType(*i)),
                None => self.method_index == 0 || !(pool_get(
                    constant_pool@,
                    self.method_index as int,
                ) matches Some(SpecEntry::NameAndType(_))),
            },
    {
        if self.method_index != 0 {
            match constant_pool.get(self.method_index) {
                Some(entry) => match entry {
                    ConstantPoolEntry::NameAndType(info) => Some(info),
                    _ => None,
                },
                None => None,
            }
        } else {
            None
        }
    }
}

/// A source-debug-extension attribute: the whole payload as text.
#[derive(Debug, Clone, PartialEq, Eq)]
pub struct SourceDebugExtensionAttrInfo {
    pub data: String,
}

impl View for SourceDebugExtensionAttrInfo {
    type V = Seq<char>;

    open spec fn view(&self) -> Seq<char> {
        self.data@
    }
}

/// Reads a source-debug-extension payload: every remaining byte, which
/// must form valid UTF-8 text.
pub open spec fn spec_read_source_debug_extension(s: Seq<u8>, pos: int) -> Result<
    (Seq<char>, int),
    Error,
> {
    if !can_read(s, pos, 0) {
        Err(Error::Truncation)
    } else {
        let bytes = s.subrange(pos, s.len() as int);
        if valid_utf8(bytes) {
            Ok((decode_utf8(bytes), s.len() as int))
        } else {
            Err(Error::Utf8DecodeError)
        }
    }
}

impl SourceDebugExtensionAttrInfo {
    pub fn read(r: &mut Reader, _pool: &ConstantPool) -> (res: Result<
        SourceDebugExtensionAttrInfo,
        Error,
    >)
        requires
            old(r).wf(),
        ensures
            final(r).bytes() == old(r).bytes(),
            final(r).wf(),
            old(r).position() <= final(r).position(),
            match spec_read_source_debug_extension(old(r).bytes(), old(r).position()) {
                Ok(v) => res matches Ok(c) && c@ == v.0 && final(r).position() == v.1,
                Err(e) => res matches Err(e2) && e2 == e,
            },
    {
        let n = r.remaining();
        let bytes = match r.read_exact(n) {
            Ok(v) => v,
            Err(e) => { return Err(e); },
        };
        match string_from_utf8(bytes) {
            Some(data) => Ok(SourceDebugExtensionAttrInfo { data }),
            None => Err(Error::Utf8DecodeError),
        }
    }
}

} // verus!
