//! The attribute framework: named, length-prefixed, extensible data
//! blocks attached to classes, fields, methods, and code bodies.
//!
//! An attribute's payload decoder is selected by the string its name
//! index resolves to through the constant pool; the payload is isolated
//! behind its declared length, so a malformed nested length can never
//! corrupt a sibling attribute. A name that matches no known decoder —
//! or a known decoder whose payload is shorter or longer than it
//! consumes — commits the raw bytes as `Unknown` rather than failing.

pub mod annotations;
pub mod classfile;
pub mod code;
pub mod field;
pub mod inner_classes;
pub mod method;
pub mod misc;
pub mod stack_map;

use vstd::prelude::*;

use crate::constant::{pool_get_str, ConstantPool, SpecEntry};
use crate::error::Error;
use crate::reader::{be_u16_at, be_u32_at, can_read, Reader};
use crate::text::str_eq;
use self::annotations::{RuntimeVisibleAnnotationsAttrInfo, SpecAnnotation};
use self::classfile::{EnclosingMethodAttrInfo, SourceDebugExtensionAttrInfo, SourceFileAttrInfo};
use self::code::{LineNumber, LineNumberTableAttrInfo, LocalVariable, LocalVariableTableAttrInfo};
use self::field::ConstantValueAttrInfo;
use self::inner_classes::{Class, InnerClassesAttrInfo};
use self::method::{CodeAttrInfo, ExceptionsAttrInfo, SpecCodeAttrInfo};
use self::misc::{DeprecatedAttrInfo, SignatureAttrInfo, SyntheticAttrInfo};
use self::stack_map::{StackMapFrame, StackMapTableAttrInfo};

verus! {

/// The payload of an attribute: a fixed set of known variants plus the
/// deliberate `Unknown` fallback carrying the raw bytes.
#[derive(Debug, PartialEq, Eq)]
pub enum AttrInfo {
    SourceFile(SourceFileAttrInfo),
    InnerClasses(InnerClassesAttrInfo),
    EnclosingMethod(EnclosingMethodAttrInfo),
    SourceDebugExtension(SourceDebugExtensionAttrInfo),
    ConstantValue(ConstantValueAttrInfo),
    Code(CodeAttrInfo),
    Exceptions(ExceptionsAttrInfo),
    LineNumberTable(LineNumberTableAttrInfo),
    LocalVariableTable(LocalVariableTableAttrInfo),
    StackMapTable(StackMapTableAttrInfo),
    Synthetic(SyntheticAttrInfo),
    Deprecated(DeprecatedAttrInfo),
    Signature(SignatureAttrInfo),
    RuntimeVisibleAnnotations(RuntimeVisibleAnnotationsAttrInfo),
    Unknown(Vec<u8>),
}

/// One attribute: its name index and its decoded payload.
#[derive(Debug, PartialEq, Eq)]
pub struct Attr {
    pub name_index: usize,
    pub info: AttrInfo,
}

/// The mathematical model of an attribute payload.
pub enum SpecAttrInfo {
    SourceFile(SourceFileAttrInfo),
    InnerClasses(Seq<Class>),
    EnclosingMethod(EnclosingMethodAttrInfo),
    SourceDebugExtension(Seq<char>),
    ConstantValue(ConstantValueAttrInfo),
    Code(SpecCodeAttrInfo),
    Exceptions(Seq<usize>),
    LineNumberTable(Seq<LineNumber>),
    LocalVariableTable(Seq<LocalVariable>),
    StackMapTable(Seq<StackMapFrame>),
    Synthetic,
    Deprecated,
    Signature(SignatureAttrInfo),
    RuntimeVisibleAnnotations(Seq<SpecAnnotation>),
    Unknown(Seq<u8>),
}

/// The mathematical model of an attribute.
pub struct SpecAttr {
    pub name_index: usize,
    pub info: SpecAttrInfo,
}

pub open spec fn attr_info_view(i: AttrInfo) -> SpecAttrInfo
    decreases i,
{
    match i {
        AttrInfo::SourceFile(x) => SpecAttrInfo::SourceFile(x),
        AttrInfo::InnerClasses(x) => SpecAttrInfo::InnerClasses(x@),
        AttrInfo::EnclosingMethod(x) => SpecAttrInfo::EnclosingMethod(x),
        AttrInfo::SourceDebugExtension(x) => SpecAttrInfo::SourceDebugExtension(x@),
        AttrInfo::ConstantValue(x) => SpecAttrInfo::ConstantValue(x),
        AttrInfo::Code(x) => SpecAttrInfo::Code(method::code_attr_view(x)),
        AttrInfo::Exceptions(x) => SpecAttrInfo::Exceptions(x@),
        AttrInfo::LineNumberTable(x) => SpecAttrInfo::LineNumberTable(x@),
        AttrInfo::LocalVariableTable(x) => SpecAttrInfo::LocalVariableTable(x@),
        AttrInfo::StackMapTable(x) => SpecAttrInfo::StackMapTable(x@),
        AttrInfo::Synthetic(_) => SpecAttrInfo::Synthetic,
        AttrInfo::Deprecated(_) => SpecAttrInfo::Deprecated,
        AttrInfo::Signature(x) => SpecAttrInfo::Signature(x),
        AttrInfo::RuntimeVisibleAnnotations(x) => SpecAttrInfo::RuntimeVisibleAnnotations(x@),
        AttrInfo::Unknown(data) => SpecAttrInfo::Unknown(data@),
    }
}

pub open spec fn attr_view(a: Attr) -> SpecAttr
    decreases a,
{
    SpecAttr { name_index: a.name_index, info: attr_info_view(a.info) }
}

pub open spec fn attrs_view(s: Seq<Attr>) -> Seq<SpecAttr>
    decreases s,
{
    if s.len() == 0 {
        Seq::empty()
    } else {
        attrs_view(s.drop_last()).push(attr_view(s.last()))
    }
}

impl View for AttrInfo {
    type V = SpecAttrInfo;

    open spec fn view(&self) -> SpecAttrInfo {
        attr_info_view(*self)
    }
}

impl View for Attr {
    type V = SpecAttr;

    open spec fn view(&self) -> SpecAttr {
        attr_view(*self)
    }
}

pub(crate) proof fn lemma_attrs_view_push(s: Seq<Attr>, a: Attr)
    ensures
        attrs_view(s.push(a)) == attrs_view(s).push(attr_view(a)),
{
    assert(s.push(a).drop_last() =~= s);
    assert(s.push(a).last() == a);
}

/// Commits a known decoder's result: the decoded variant when it
/// consumed the payload exactly; the raw bytes as `Unknown` when the
/// payload was shorter (the decoder ran off its end) or longer than it
/// consumes; any other failure of the decoder unchanged.
pub open spec fn spec_wrap_known(
    res: Result<(SpecAttrInfo, int), Error>,
    payload: Seq<u8>,
) -> Result<SpecAttrInfo, Error> {
    match res {
        Ok(v) => if v.1 == payload.len() {
            Ok(v.0)
        } else {
            Ok(SpecAttrInfo::Unknown(payload))
        },
        Err(Error::Truncation) => Ok(SpecAttrInfo::Unknown(payload)),
        Err(e) => Err(e),
    }
}

/// Dispatches an isolated payload on the resolved attribute name; a
/// name outside the table yields `Unknown` with the raw bytes.
pub open spec fn spec_dispatch_attr_info(
    payload: Seq<u8>,
    name: Seq<char>,
    pool: Seq<SpecEntry>,
) -> Result<SpecAttrInfo, Error>
    decreases payload.len(), 3int,
{
    if name == "InnerClasses"@ {
        spec_wrap_known(
            match inner_classes::spec_read_inner_classes(payload, 0) {
                Ok(v) => Ok((SpecAttrInfo::InnerClasses(v.0), v.1)),
                Err(e) => Err(e),
            },
            payload,
        )
    } else if name == "SourceFile"@ {
        spec_wrap_known(
            match classfile::spec_read_source_file(payload, 0) {
                Ok(v) => Ok((SpecAttrInfo::SourceFile(v.0), v.1)),
                Err(e) => Err(e),
            },
            payload,
        )
    } else if name == "EnclosingMethod"@ {
        spec_wrap_known(
            match classfile::spec_read_enclosing_method(payload, 0) {
                Ok(v) => Ok((SpecAttrInfo::EnclosingMethod(v.0), v.1)),
                Err(e) => Err(e),
            },
            payload,
        )
    } else if name == "SourceDebugExtension"@ {
        spec_wrap_known(
            match classfile::spec_read_source_debug_extension(payload, 0) {
                Ok(v) => Ok((SpecAttrInfo::SourceDebugExtension(v.0), v.1)),
                Err(e) => Err(e),
            },
            payload,
        )
    } else if name == "ConstantValue"@ {
        spec_wrap_known(
            match field::spec_read_constant_value(payload, 0) {
                Ok(v) => Ok((SpecAttrInfo::ConstantValue(v.0), v.1)),
                Err(e) => Err(e),
            },
            payload,
        )
    } else if name == "Code"@ {
        spec_wrap_known(
            match method::spec_read_code(payload, 0, pool) {
                Ok(v) => Ok((SpecAttrInfo::Code(v.0), v.1)),
                Err(e) => Err(e),
            },
            payload,
        )
    } else if name == "Exceptions"@ {
        spec_wrap_known(
            match method::spec_read_exceptions(payload, 0) {
                Ok(v) => Ok((SpecAttrInfo::Exceptions(v.0), v.1)),
                Err(e) => Err(e),
            },
            payload,
        )
    } else if name == "StackMapTable"@ {
        spec_wrap_known(
            match stack_map::spec_read_stack_map_table(payload, 0) {
                Ok(v) => Ok((SpecAttrInfo::StackMapTable(v.0), v.1)),
                Err(e) => Err(e),
            },
            payload,
        )
    } else if name == "LineNumberTable"@ {
        spec_wrap_known(
            match code::spec_read_line_number_table(payload, 0) {
                Ok(v) => Ok((SpecAttrInfo::LineNumberTable(v.0), v.1)),
                Err(e) => Err(e),
            },
            payload,
        )
    } else if name == "LocalVariableTable"@ {
        spec_wrap_known(
            match code::spec_read_local_variable_table(payload, 0) {
                Ok(v) => Ok((SpecAttrInfo::LocalVariableTable(v.0), v.1)),
                Err(e) => Err(e),
            },
            payload,
        )
    } else if name == "Synthetic"@ {
        spec_wrap_known(Ok((SpecAttrInfo::Synthetic, 0)), payload)
    } else if name == "Deprecated"@ {
        spec_wrap_known(Ok((SpecAttrInfo::Deprecated, 0)), payload)
    } else if name == "RuntimeVisibleAnnotations"@ {
        spec_wrap_known(
            match annotations::spec_read_runtime_visible_annotations(payload, 0) {
                Ok(v) => Ok((SpecAttrInfo::RuntimeVisibleAnnotations(v.0), v.1)),
                Err(e) => Err(e),
            },
            payload,
        )
    } else if name == "Signature"@ {
        spec_wrap_known(
            match misc::spec_read_signature(payload, 0) {
                Ok(v) => Ok((SpecAttrInfo::Signature(v.0), v.1)),
                Err(e) => Err(e),
            },
            payload,
        )
    } else {
        Ok(SpecAttrInfo::Unknown(payload))
    }
}

/// Reads an attribute payload: a 32-bit length, exactly that many
/// payload bytes, then the name-keyed dispatch over the isolated
/// payload.
pub open spec fn spec_read_attr_info(
    s: Seq<u8>,
    pos: int,
    name: Seq<char>,
    pool: Seq<SpecEntry>,
) -> Result<(SpecAttrInfo, int), Error>
    decreases s.len() - pos, 0int,
{
    if !can_read(s, pos, 4) {
        Err(Error::Truncation)
    } else {
        let size = be_u32_at(s, pos) as int;
        if !can_read(s, pos + 4, size) {
            Err(Error::Truncation)
        } else {
            let payload = s.subrange(pos + 4, pos + 4 + size);
            match spec_dispatch_attr_info(payload, name, pool) {
                Ok(info) => Ok((info, pos + 4 + size)),
                Err(e) => Err(e),
            }
        }
    }
}

/// Reads one attribute: a name index that must resolve to a string
/// through the pool (else a hard `BadAttrName` error carrying the
/// index), then the length-prefixed payload.
pub open spec fn spec_read_attr(s: Seq<u8>, pos: int, pool: Seq<SpecEntry>) -> Result<
    (SpecAttr, int),
    Error,
>
    decreases s.len() - pos, 1int,
{
    if !can_read(s, pos, 2) {
        Err(Error::Truncation)
    } else {
        let name_index = be_u16_at(s, pos) as usize;
        match pool_get_str(pool, name_index as int) {
            None => Err(Error::BadAttrName(name_index)),
            Some(name) => match spec_read_attr_info(s, pos + 2, name, pool) {
                Ok(v) => Ok((SpecAttr { name_index, info: v.0 }, v.1)),
                Err(e) => Err(e),
            },
        }
    }
}

/// Reads `n` attributes in sequence.
pub open spec fn spec_read_attrs(s: Seq<u8>, pos: int, n: int, pool: Seq<SpecEntry>) -> Result<
    (Seq<SpecAttr>, int),
    Error,
>
    decreases s.len() - pos, 4int,
{
    if n <= 0 {
        Ok((Seq::empty(), pos))
    } else {
        match spec_read_attr(s, pos, pool) {
            Err(e) => Err(e),
            Ok(v) => {
                if v.1 <= pos || s.len() < v.1 {
                    Err(Error::Truncation)
                } else {
                    match spec_read_attrs(s, v.1, n - 1, pool) {
                        Err(e) => Err(e),
                        Ok(w) => Ok((seq![v.0] + w.0, w.1)),
                    }
                }
            },
        }
    }
}


/// The names the dispatch table knows.
pub open spec fn spec_known_attr_name(name: Seq<char>) -> bool {
    ||| name == "InnerClasses"@
    ||| name == "SourceFile"@
    ||| name == "EnclosingMethod"@
    ||| name == "SourceDebugExtension"@
    ||| name == "ConstantValue"@
    ||| name == "Code"@
    ||| name == "Exceptions"@
    ||| name == "StackMapTable"@
    ||| name == "LineNumberTable"@
    ||| name == "LocalVariableTable"@
    ||| name == "Synthetic"@
    ||| name == "Deprecated"@
    ||| name == "RuntimeVisibleAnnotations"@
    ||| name == "Signature"@
}

/// Unknown-attribute tolerance: an attribute whose resolved name is not
/// in the dispatch table decodes successfully as `Unknown`, carrying
/// exactly the declared payload bytes, and leaves the cursor right after
/// the payload — so it never prevents decoding of subsequent attributes.
pub proof fn lemma_unknown_attr_tolerated(s: Seq<u8>, pos: int, name: Seq<char>, pool: Seq<SpecEntry>)
    requires
        !spec_known_attr_name(name),
        can_read(s, pos, 4),
        can_read(s, pos + 4, be_u32_at(s, pos) as int),
    ensures
        spec_read_attr_info(s, pos, name, pool) == Ok::<(SpecAttrInfo, int), Error>(
            (
                SpecAttrInfo::Unknown(s.subrange(pos + 4, pos + 4 + be_u32_at(s, pos) as int)),
                pos + 4 + be_u32_at(s, pos) as int,
            ),
        ),
{
}

impl Attr {
    /// Reads one attribute, resolving its name through the pool.
    pub fn read(r: &mut Reader, pool: &ConstantPool) -> (res: Result<Attr, Error>)
        requires
            old(r).wf(),
        ensures
            final(r).bytes() == old(r).bytes(),
            final(r).wf(),
            old(r).position() <= final(r).position(),
            res is Ok ==> old(r).position() < final(r).position(),
            match spec_read_attr(old(r).bytes(), old(r).position(), pool@) {
                Ok(v) => res matches Ok(a) && a@ == v.0 && final(r).position() == v.1,
                Err(e) => res matches Err(e2) && e2 == e,
            },
        decreases old(r).bytes().len() - old(r).position(), 1int,
    {
        let name_index = match r.read_u16() {
            Ok(v) => v,
            Err(e) => { return Err(e); },
        };
        let name = match pool.get_str(name_index as usize) {
            Some(name) => name,
            None => { return Err(Error::BadAttrName(name_index as usize)); },
        };
        match AttrInfo::read(r, name, pool) {
            Ok(info) => Ok(Attr { name_index: name_index as usize, info }),
            Err(e) => Err(e),
        }
    }

    /// The attribute's name, resolved through the pool.
    pub fn name<'a>(&self, pool: &'a ConstantPool) -> (r: Option<&'a str>)
        ensures
            match r {
                Some(s) => pool_get_str(pool@, self.name_index as int) == Some(s@),
                None => pool_get_str(pool@, self.name_index as int) is None,
            },
    {
        pool.get_str(self.name_index)
    }
}

impl AttrInfo {
    /// Reads a length-prefixed payload and dispatches it on the resolved
    /// name over a fresh bounded cursor.
    pub fn read(r: &mut Reader, name: &str, pool: &ConstantPool) -> (res: Result<AttrInfo, Error>)
        requires
            old(r).wf(),
        ensures
            final(r).bytes() == old(r).bytes(),
            final(r).wf(),
            old(r).position() <= final(r).position(),
            match spec_read_attr_info(old(r).bytes(), old(r).position(), name@, pool@) {
                Ok(v) => res matches Ok(i) && i@ == v.0 && final(r).position() == v.1,
                Err(e) => res matches Err(e2) && e2 == e,
            },
        decreases old(r).bytes().len() - old(r).position(), 0int,
    {
        let size = match r.read_u32() {
            Ok(v) => v,
            Err(e) => { return Err(e); },
        };
        let data = match r.read_exact(size as usize) {
            Ok(v) => v,
            Err(e) => { return Err(e); },
        };
        if str_eq(name, "InnerClasses") {
            let mut sub = Reader::new(data.as_slice());
            match InnerClassesAttrInfo::read(&mut sub, pool) {
                Ok(info) => {
                    if sub.remaining() == 0 {
                        Ok(AttrInfo::InnerClasses(info))
                    } else {
                        Ok(AttrInfo::Unknown(data))
                    }
                },
                Err(e) => match e {
                    Error::Truncation => Ok(AttrInfo::Unknown(data)),
                    _ => Err(e),
                },
            }
        } else if str_eq(name, "SourceFile") {
            let mut sub = Reader::new(data.as_slice());
            match SourceFileAttrInfo::read(&mut sub, pool) {
                Ok(info) => {
                    if sub.remaining() == 0 {
                        Ok(AttrInfo::SourceFile(info))
                    } else {
                        Ok(AttrInfo::Unknown(data))
                    }
                },
                Err(e) => match e {
                    Error::Truncation => Ok(AttrInfo::Unknown(data)),
                    _ => Err(e),
                },
            }
        } else if str_eq(name, "EnclosingMethod") {
            let mut sub = Reader::new(data.as_slice());
            match EnclosingMethodAttrInfo::read(&mut sub, pool) {
                Ok(info) => {
                    if sub.remaining() == 0 {
                        Ok(AttrInfo::EnclosingMethod(info))
                    } else {
                        Ok(AttrInfo::Unknown(data))
                    }
                },
                Err(e) => match e {
                    Error::Truncation => Ok(AttrInfo::Unknown(data)),
                    _ => Err(e),
                },
            }
        } else if str_eq(name, "SourceDebugExtension") {
            let mut sub = Reader::new(data.as_slice());
            match SourceDebugExtensionAttrInfo::read(&mut sub, pool) {
                Ok(info) => {
                    if sub.remaining() == 0 {
                        Ok(AttrInfo::SourceDebugExtension(info))
                    } else {
                        Ok(AttrInfo::Unknown(data))
                    }
                },
                Err(e) => match e {
                    Error::Truncation => Ok(AttrInfo::Unknown(data)),
                    _ => Err(e),
                },
            }
        } else if str_eq(name, "ConstantValue") {
            let mut sub = Reader::new(data.as_slice());
            match ConstantValueAttrInfo::read(&mut sub, pool) {
                Ok(info) => {
                    if sub.remaining() == 0 {
                        Ok(AttrInfo::ConstantValue(info))
                    } else {
                        Ok(AttrInfo::Unknown(data))
                    }
                },
                Err(e) => match e {
                    Error::Truncation => Ok(AttrInfo::Unknown(data)),
                    _ => Err(e),
                },
            }
        } else if str_eq(name, "Code") {
            let mut sub = Reader::new(data.as_slice());
            match CodeAttrInfo::read(&mut sub, pool) {
                Ok(info) => {
                    if sub.remaining() == 0 {
                        Ok(AttrInfo::Code(info))
                    } else {
                        Ok(AttrInfo::Unknown(data))
                    }
                },
                Err(e) => match e {
                    Error::Truncation => Ok(AttrInfo::Unknown(data)),
                    _ => Err(e),
                },
            }
        } else if str_eq(name, "Exceptions") {
            let mut sub = Reader::new(data.as_slice());
            match ExceptionsAttrInfo::read(&mut sub, pool) {
                Ok(info) => {
                    if sub.remaining() == 0 {
                        Ok(AttrInfo::Exceptions(info))
                    } else {
                        Ok(AttrInfo::Unknown(data))
                    }
                },
                Err(e) => match e {
                    Error::Truncation => Ok(AttrInfo::Unknown(data)),
                    _ => Err(e),
                },
            }
        } else if str_eq(name, "StackMapTable") {
            let mut sub = Reader::new(data.as_slice());
            match StackMapTableAttrInfo::read(&mut sub, pool) {
                Ok(info) => {
                    if sub.remaining() == 0 {
                        Ok(AttrInfo::StackMapTable(info))
                    } else {
                        Ok(AttrInfo::Unknown(data))
                    }
                },
                Err(e) => match e {
                    Error::Truncation => Ok(AttrInfo::Unknown(data)),
                    _ => Err(e),
                },
            }
        } else if str_eq(name, "LineNumberTable") {
            let mut sub = Reader::new(data.as_slice());
            match LineNumberTableAttrInfo::read(&mut sub, pool) {
                Ok(info) => {
                    if sub.remaining() == 0 {
                        Ok(AttrInfo::LineNumberTable(info))
                    } else {
                        Ok(AttrInfo::Unknown(data))
                    }
                },
                Err(e) => match e {
                    Error::Truncation => Ok(AttrInfo::Unknown(data)),
                    _ => Err(e),
                },
            }
        } else if str_eq(name, "LocalVariableTable") {
            let mut sub = Reader::new(data.as_slice());
            match LocalVariableTableAttrInfo::read(&mut sub, pool) {
                Ok(info) => {
                    if sub.remaining() == 0 {
                        Ok(AttrInfo::LocalVariableTable(info))
                    } else {
                        Ok(AttrInfo::Unknown(data))
                    }
                },
                Err(e) => match e {
                    Error::Truncation => Ok(AttrInfo::Unknown(data)),
                    _ => Err(e),
                },
            }
        } else if str_eq(name, "Synthetic") {
            if data.len() == 0 {
                Ok(AttrInfo::Synthetic(SyntheticAttrInfo))
            } else {
                Ok(AttrInfo::Unknown(data))
            }
        } else if str_eq(name, "Deprecated") {
            if data.len() == 0 {
                Ok(AttrInfo::Deprecated(DeprecatedAttrInfo))
            } else {
                Ok(AttrInfo::Unknown(data))
            }
        } else if str_eq(name, "RuntimeVisibleAnnotations") {
            let mut sub = Reader::new(data.as_slice());
            match RuntimeVisibleAnnotationsAttrInfo::read(&mut sub, pool) {
                Ok(info) => {
                    if sub.remaining() == 0 {
                        Ok(AttrInfo::RuntimeVisibleAnnotations(info))
                    } else {
                        Ok(AttrInfo::Unknown(data))
                    }
                },
                Err(e) => match e {
                    Error::Truncation => Ok(AttrInfo::Unknown(data)),
                    _ => Err(e),
                },
            }
        } else if str_eq(name, "Signature") {
            let mut sub = Reader::new(data.as_slice());
            match SignatureAttrInfo::read(&mut sub, pool) {
                Ok(info) => {
                    if sub.remaining() == 0 {
                        Ok(AttrInfo::Signature(info))
                    } else {
                        Ok(AttrInfo::Unknown(data))
                    }
                },
                Err(e) => match e {
                    Error::Truncation => Ok(AttrInfo::Unknown(data)),
                    _ => Err(e),
                },
            }
        } else {
            Ok(AttrInfo::Unknown(data))
        }
    }
}

/// Reads `n` attributes in sequence, appending them to `attrs`.
pub(crate) fn read_attrs(
    r: &mut Reader,
    n: u16,
    pool: &ConstantPool,
    attrs: &mut Vec<Attr>,
) -> (res: Result<(), Error>)
    requires
        old(r).wf(),
    ensures
        final(r).bytes() == old(r).bytes(),
        final(r).wf(),
        old(r).position() <= final(r).position(),
        match spec_read_attrs(old(r).bytes(), old(r).position(), n as int, pool@) {
            Ok(v) => res is Ok && attrs_view(final(attrs)@) == attrs_view(old(attrs)@) + v.0
                && final(r).position() == v.1,
            Err(e) => res matches Err(e2) && e2 == e,
        },
    decreases old(r).bytes().len() - old(r).position(), 4int,
{
    if n == 0 {
        proof {
            assert(attrs_view(attrs@) + Seq::<SpecAttr>::empty() =~= attrs_view(attrs@));
        }
        Ok(())
    } else {
        let ghost s = old(r).bytes();
        let attr = match Attr::read(r, pool) {
            Ok(v) => v,
            Err(e) => { return Err(e); },
        };
        proof {
            lemma_attrs_view_push(attrs@, attr);
        }
        let ghost mid = attrs@.push(attr);
        let ghost attr_m = attr_view(attr);
        attrs.push(attr);
        match read_attrs(r, (n - 1) as u16, pool, attrs) {
            Ok(()) => {
                proof {
                    match spec_read_attrs(s, final(r).position(), n as int - 1, pool@) {
                        Ok(v) => {
                            assert(attrs_view(mid) + v.0 =~= attrs_view(mid.drop_last()) + (
                            seq![attr_m] + v.0));
                        },
                        Err(_) => {},
                    }
                    assert(mid.drop_last() =~= old(attrs)@);
                }
                Ok(())
            },
            Err(e) => Err(e),
        }
    }
}

} // verus!
