//! Runtime-visible annotations: a genuinely recursive grammar in which
//! an element value may nest another annotation or an array of further
//! element values.
//!
//! Recursion depth is bounded by the input itself: every nested value
//! begins strictly deeper in the payload, so decoding consumes at least
//! one byte per level and can never grow past the isolated payload.

use vstd::prelude::*;

use crate::constant::{pool_get, pool_get_str, ConstantPool, ConstantPoolEntry};
use crate::error::Error;
use crate::reader::{be_u16_at, can_read, Reader};

verus! {

/// The element-value tag characters, as byte values.
pub const TAG_BYTE: u8 = 66;
pub const TAG_CHAR: u8 = 67;
pub const TAG_DOUBLE: u8 = 68;
pub const TAG_FLOAT: u8 = 70;
pub const TAG_INT: u8 = 73;
pub const TAG_LONG: u8 = 74;
pub const TAG_SHORT: u8 = 83;
pub const TAG_BOOLEAN: u8 = 90;
pub const TAG_STRING: u8 = 115;
pub const TAG_ENUM: u8 = 101;
pub const TAG_CLASS: u8 = 99;
pub const TAG_ANNOTATION: u8 = 64;
pub const TAG_ARRAY: u8 = 91;

/// A primitive-constant element value: one index into the pool.
#[derive(Debug, Clone, Copy, PartialEq, Eq, Structural)]
pub struct ConstValueInfo {
    pub index: usize,
}

/// An enum-constant element value: type name and constant name indices.
#[derive(Debug, Clone, Copy, PartialEq, Eq, Structural)]
pub struct EnumConstValueInfo {
    pub type_name_index: usize,
    pub const_name_index: usize,
}

/// A class element value: one `Utf8` index.
#[derive(Debug, Clone, Copy, PartialEq, Eq, Structural)]
pub struct ClassInfo {
    pub index: usize,
}

/// One annotation member: a tag-selected union, recursive through the
/// annotation and array variants.
#[derive(Debug, PartialEq, Eq)]
pub enum ElementValue {
    ConstValue(ConstValueInfo),
    EnumConstValue(EnumConstValueInfo),
    Class(ClassInfo),
    Annotation(Annotation),
    Array(Vec<ElementValue>),
}

/// A named annotation member.
#[derive(Debug, PartialEq, Eq)]
pub struct NamedElementValue {
    pub name_index: usize,
    pub value: ElementValue,
}

/// One annotation: a type index and its named members.
#[derive(Debug, PartialEq, Eq)]
pub struct Annotation {
    pub type_index: usize,
    pub element_values: Vec<NamedElementValue>,
}

/// The runtime-visible-annotations attribute payload.
#[derive(Debug, PartialEq, Eq)]
pub struct RuntimeVisibleAnnotationsAttrInfo {
    pub annotations: Vec<Annotation>,
}

/// The mathematical model of an element value.
pub enum SpecElementValue {
    ConstValue(ConstValueInfo),
    EnumConstValue(EnumConstValueInfo),
    Class(ClassInfo),
    Annotation(SpecAnnotation),
    Array(Seq<SpecElementValue>),
}

/// The mathematical model of a named member.
pub struct SpecNamedElementValue {
    pub name_index: usize,
    pub value: SpecElementValue,
}

/// The mathematical model of an annotation.
pub struct SpecAnnotation {
    pub type_index: usize,
    pub element_values: Seq<SpecNamedElementValue>,
}

pub open spec fn element_value_view(v: ElementValue) -> SpecElementValue
    decreases v,
{
    match v {
        ElementValue::ConstValue(i) => SpecElementValue::ConstValue(i),
        ElementValue::EnumConstValue(i) => SpecElementValue::EnumConstValue(i),
        ElementValue::Class(i) => SpecElementValue::Class(i),
        ElementValue::Annotation(a) => SpecElementValue::Annotation(annotation_view(a)),
        ElementValue::Array(vs) => SpecElementValue::Array(element_values_view(vs@)),
    }
}

pub open spec fn element_values_view(s: Seq<ElementValue>) -> Seq<SpecElementValue>
    decreases s,
{
    if s.len() == 0 {
        Seq::empty()
    } else {
        element_values_view(s.drop_last()).push(element_value_view(s.last()))
    }
}

pub open spec fn named_element_value_view(v: NamedElementValue) -> SpecNamedElementValue
    decreases v,
{
    SpecNamedElementValue { name_index: v.name_index, value: element_value_view(v.value) }
}

pub open spec fn named_element_values_view(s: Seq<NamedElementValue>) -> Seq<
    SpecNamedElementValue,
>
    decreases s,
{
    if s.len() == 0 {
        Seq::empty()
    } else {
        named_element_values_view(s.drop_last()).push(named_element_value_view(s.last()))
    }
}

pub open spec fn annotation_view(a: Annotation) -> SpecAnnotation
    decreases a,
{
    SpecAnnotation {
        type_index: a.type_index,
        element_values: named_element_values_view(a.element_values@),
    }
}

pub open spec fn annotations_view(s: Seq<Annotation>) -> Seq<SpecAnnotation>
    decreases s,
{
    if s.len() == 0 {
        Seq::empty()
    } else {
        annotations_view(s.drop_last()).push(annotation_view(s.last()))
    }
}

impl View for ElementValue {
    type V = SpecElementValue;

    open spec fn view(&self) -> SpecElementValue {
        element_value_view(*self)
    }
}

impl View for NamedElementValue {
    type V = SpecNamedElementValue;

    open spec fn view(&self) -> SpecNamedElementValue {
        named_element_value_view(*self)
    }
}

impl View for Annotation {
    type V = SpecAnnotation;

    open spec fn view(&self) -> SpecAnnotation {
        annotation_view(*self)
    }
}

impl View for RuntimeVisibleAnnotationsAttrInfo {
    type V = Seq<SpecAnnotation>;

    open spec fn view(&self) -> Seq<SpecAnnotation> {
        annotations_view(self.annotations@)
    }
}

proof fn lemma_element_values_view_push(s: Seq<ElementValue>, v: ElementValue)
    ensures
        element_values_view(s.push(v)) == element_values_view(s).push(element_value_view(v)),
{
    assert(s.push(v).drop_last() =~= s);
    assert(s.push(v).last() == v);
}

proof fn lemma_named_element_values_view_push(s: Seq<NamedElementValue>, v: NamedElementValue)
    ensures
        named_element_values_view(s.push(v)) == named_element_values_view(s).push(
            named_element_value_view(v),
        ),
{
    assert(s.push(v).drop_last() =~= s);
    assert(s.push(v).last() == v);
}

proof fn lemma_annotations_view_push(s: Seq<Annotation>, a: Annotation)
    ensures
        annotations_view(s.push(a)) == annotations_view(s).push(annotation_view(a)),
{
    assert(s.push(a).drop_last() =~= s);
    assert(s.push(a).last() == a);
}

/// True of the tag characters that select a primitive-constant member.
pub open spec fn spec_is_const_tag(tag: u8) -> bool {
    tag == TAG_BYTE || tag == TAG_CHAR || tag == TAG_DOUBLE || tag == TAG_FLOAT || tag == TAG_INT || tag == TAG_LONG
        || tag == TAG_SHORT || tag == TAG_BOOLEAN || tag == TAG_STRING
}

/// Reads one element value: a tag byte, then the payload it selects; an
/// unrecognized tag is a hard `BadTagValue` error carrying the byte.
pub open spec fn spec_read_element_value(s: Seq<u8>, pos: int) -> Result<
    (SpecElementValue, int),
    Error,
>
    decreases s.len() - pos, 0int,
{
    if !can_read(s, pos, 1) {
        Err(Error::Truncation)
    } else {
        let tag = s[pos];
        let p = pos + 1;
        if spec_is_const_tag(tag) {
            if can_read(s, p, 2) {
                Ok(
                    (
                        SpecElementValue::ConstValue(
                            ConstValueInfo { index: be_u16_at(s, p) as usize },
                        ),
                        p + 2,
                    ),
                )
            } else {
                Err(Error::Truncation)
            }
        } else if tag == TAG_ENUM {
            if can_read(s, p, 4) {
                Ok(
                    (
                        SpecElementValue::EnumConstValue(
                            EnumConstValueInfo {
                                type_name_index: be_u16_at(s, p) as usize,
                                const_name_index: be_u16_at(s, p + 2) as usize,
                            },
                        ),
                        p + 4,
                    ),
                )
            } else {
                Err(Error::Truncation)
            }
        } else if tag == TAG_CLASS {
            if can_read(s, p, 2) {
                Ok(
                    (
                        SpecElementValue::Class(ClassInfo { index: be_u16_at(s, p) as usize }),
                        p + 2,
                    ),
                )
            } else {
                Err(Error::Truncation)
            }
        } else if tag == TAG_ANNOTATION {
            match spec_read_annotation(s, p) {
                Ok(v) => Ok((SpecElementValue::Annotation(v.0), v.1)),
                Err(e) => Err(e),
            }
        } else if tag == TAG_ARRAY {
            if !can_read(s, p, 2) {
                Err(Error::Truncation)
            } else {
                match spec_read_element_values(s, p + 2, be_u16_at(s, p) as int) {
                    Ok(v) => Ok((SpecElementValue::Array(v.0), v.1)),
                    Err(e) => Err(e),
                }
            }
        } else {
            Err(Error::BadTagValue(tag))
        }
    }
}

/// Reads `n` element values in sequence.
pub open spec fn spec_read_element_values(s: Seq<u8>, pos: int, n: int) -> Result<
    (Seq<SpecElementValue>, int),
    Error,
>
    decreases s.len() - pos, 1int,
{
    if n <= 0 {
        Ok((Seq::empty(), pos))
    } else {
        match spec_read_element_value(s, pos) {
            Err(e) => Err(e),
            Ok(v) => {
                if v.1 <= pos || s.len() < v.1 {
                    Err(Error::Truncation)
                } else {
                    match spec_read_element_values(s, v.1, n - 1) {
                        Err(e) => Err(e),
                        Ok(w) => Ok((seq![v.0] + w.0, w.1)),
                    }
                }
            },
        }
    }
}

/// Reads one named member: a name index, then its element value.
pub open spec fn spec_read_named_element_value(s: Seq<u8>, pos: int) -> Result<
    (SpecNamedElementValue, int),
    Error,
>
    decreases s.len() - pos, 0int,
{
    if !can_read(s, pos, 2) {
        Err(Error::Truncation)
    } else {
        match spec_read_element_value(s, pos + 2) {
            Ok(v) => Ok(
                (
                    SpecNamedElementValue {
                        name_index: be_u16_at(s, pos) as usize,
                        value: v.0,
                    },
                    v.1,
                ),
            ),
            Err(e) => Err(e),
        }
    }
}

/// Reads `n` named members in sequence.
pub open spec fn spec_read_named_element_values(s: Seq<u8>, pos: int, n: int) -> Result<
    (Seq<SpecNamedElementValue>, int),
    Error,
>
    decreases s.len() - pos, 1int,
{
    if n <= 0 {
        Ok((Seq::empty(), pos))
    } else {
        match spec_read_named_element_value(s, pos) {
            Err(e) => Err(e),
            Ok(v) => {
                if v.1 <= pos || s.len() < v.1 {
                    Err(Error::Truncation)
                } else {
                    match spec_read_named_element_values(s, v.1, n - 1) {
                        Err(e) => Err(e),
                        Ok(w) => Ok((seq![v.0] + w.0, w.1)),
                    }
                }
            },
        }
    }
}

/// Reads one annotation: a type index, a member count, then the
/// members.
pub open spec fn spec_read_annotation(s: Seq<u8>, pos: int) -> Result<(SpecAnnotation, int), Error>
    decreases s.len() - pos, 2int,
{
    if !can_read(s, pos, 4) {
        Err(Error::Truncation)
    } else {
        match spec_read_named_element_values(s, pos + 4, be_u16_at(s, pos + 2) as int) {
            Ok(v) => Ok(
                (
                    SpecAnnotation {
                        type_index: be_u16_at(s, pos) as usize,
                        element_values: v.0,
                    },
                    v.1,
                ),
            ),
            Err(e) => Err(e),
        }
    }
}

/// Reads `n` annotations in sequence.
pub open spec fn spec_read_annotations(s: Seq<u8>, pos: int, n: int) -> Result<
    (Seq<SpecAnnotation>, int),
    Error,
>
    decreases s.len() - pos, 3int,
{
    if n <= 0 {
        Ok((Seq::empty(), pos))
    } else {
        match spec_read_annotation(s, pos) {
            Err(e) => Err(e),
            Ok(v) => {
                if v.1 <= pos || s.len() < v.1 {
                    Err(Error::Truncation)
                } else {
                    match spec_read_annotations(s, v.1, n - 1) {
                        Err(e) => Err(e),
                        Ok(w) => Ok((seq![v.0] + w.0, w.1)),
                    }
                }
            },
        }
    }
}

/// Reads a runtime-visible-annotations payload: a 16-bit count, then
/// that many annotations.
pub open spec fn spec_read_runtime_visible_annotations(s: Seq<u8>, pos: int) -> Result<
    (Seq<SpecAnnotation>, int),
    Error,
> {
    if !can_read(s, pos, 2) {
        Err(Error::Truncation)
    } else {
        spec_read_annotations(s, pos + 2, be_u16_at(s, pos) as int)
    }
}

fn is_const_tag(tag: u8) -> (r: bool)
    ensures
        r == spec_is_const_tag(tag),
{
    tag == TAG_BYTE || tag == TAG_CHAR || tag == TAG_DOUBLE || tag == TAG_FLOAT || tag == TAG_INT || tag == TAG_LONG
        || tag == TAG_SHORT || tag == TAG_BOOLEAN || tag == TAG_STRING
}

impl ElementValue {
    /// Reads one element value; the annotation and array variants
    /// recurse, each strictly deeper in the payload.
    pub fn read(r: &mut Reader) -> (res: Result<ElementValue, Error>)
        requires
            old(r).wf(),
        ensures
            final(r).bytes() == old(r).bytes(),
            final(r).wf(),
            old(r).position() <= final(r).position(),
            res is Ok ==> old(r).position() < final(r).position(),
            match spec_read_element_value(old(r).bytes(), old(r).position()) {
                Ok(v) => res matches Ok(ev) && ev@ == v.0 && final(r).position() == v.1,
                Err(e) => res matches Err(e2) && e2 == e,
            },
        decreases old(r).bytes().len() - old(r).position(), 0int,
    {
        let tag = match r.read_u8() {
            Ok(v) => v,
            Err(e) => { return Err(e); },
        };
        if is_const_tag(tag) {
            let index = match r.read_u16() {
                Ok(v) => v,
                Err(e) => { return Err(e); },
            };
            Ok(ElementValue::ConstValue(ConstValueInfo { index: index as usize }))
        } else if tag == TAG_ENUM {
            let type_name_index = match r.read_u16() {
                Ok(v) => v,
                Err(e) => { return Err(e); },
            };
            let const_name_index = match r.read_u16() {
                Ok(v) => v,
                Err(e) => { return Err(e); },
            };
            Ok(
                ElementValue::EnumConstValue(
                    EnumConstValueInfo {
                        type_name_index: type_name_index as usize,
                        const_name_index: const_name_index as usize,
                    },
                ),
            )
        } else if tag == TAG_CLASS {
            let index = match r.read_u16() {
                Ok(v) => v,
                Err(e) => { return Err(e); },
            };
            Ok(ElementValue::Class(ClassInfo { index: index as usize }))
        } else if tag == TAG_ANNOTATION {
            match Annotation::read(r) {
                Ok(a) => Ok(ElementValue::Annotation(a)),
                Err(e) => Err(e),
            }
        } else if tag == TAG_ARRAY {
            let n = match r.read_u16() {
                Ok(v) => v,
                Err(e) => { return Err(e); },
            };
            let mut values: Vec<ElementValue> = Vec::new();
            match read_element_values(r, n, &mut values) {
                Ok(()) => {
                    proof {
                        assert(element_values_view(Seq::<ElementValue>::empty())
                            + spec_read_element_values(
                            old(r).bytes(),
                            old(r).position() + 3,
                            n as int,
                        )->Ok_0.0 =~= spec_read_element_values(
                            old(r).bytes(),
                            old(r).position() + 3,
                            n as int,
                        )->Ok_0.0);
                    }
                    Ok(ElementValue::Array(values))
                },
                Err(e) => Err(e),
            }
        } else {
            Err(Error::BadTagValue(tag))
        }
    }
}

/// Reads `n` element values in sequence, appending them to `values`.
fn read_element_values(r: &mut Reader, n: u16, values: &mut Vec<ElementValue>) -> (res: Result<
    (),
    Error,
>)
    requires
        old(r).wf(),
    ensures
        final(r).bytes() == old(r).bytes(),
        final(r).wf(),
        old(r).position() <= final(r).position(),
        match spec_read_element_values(old(r).bytes(), old(r).position(), n as int) {
            Ok(v) => res is Ok && element_values_view(final(values)@) == element_values_view(
                old(values)@,
            ) + v.0 && final(r).position() == v.1,
            Err(e) => res matches Err(e2) && e2 == e,
        },
    decreases old(r).bytes().len() - old(r).position(), 1int,
{
    if n == 0 {
        proof {
            assert(element_values_view(values@) + Seq::<SpecElementValue>::empty()
                =~= element_values_view(values@));
        }
        Ok(())
    } else {
        let ghost s = old(r).bytes();
        let value = match ElementValue::read(r) {
            Ok(v) => v,
            Err(e) => { return Err(e); },
        };
        proof {
            lemma_element_values_view_push(values@, value);
        }
        let ghost mid = values@.push(value);
        values.push(value);
        match read_element_values(r, (n - 1) as u16, values) {
            Ok(()) => {
                proof {
                    match spec_read_element_values(s, final(r).position(), n as int - 1) {
                        Ok(v) => {
                            assert(element_values_view(mid) + v.0 =~= element_values_view(
                                mid.drop_last(),
                            ) + (seq![value@] + v.0));
                        },
                        Err(_) => {},
                    }
                    assert(mid.drop_last() =~= old(values)@);
                }
                Ok(())
            },
            Err(e) => Err(e),
        }
    }
}

/// Reads `n` named members in sequence, appending them to `values`.
fn read_named_element_values(
    r: &mut Reader,
    n: u16,
    values: &mut Vec<NamedElementValue>,
) -> (res: Result<(), Error>)
    requires
        old(r).wf(),
    ensures
        final(r).bytes() == old(r).bytes(),
        final(r).wf(),
        old(r).position() <= final(r).position(),
        match spec_read_named_element_values(old(r).bytes(), old(r).position(), n as int) {
            Ok(v) => res is Ok && named_element_values_view(final(values)@)
                == named_element_values_view(old(values)@) + v.0 && final(r).position() == v.1,
            Err(e) => res matches Err(e2) && e2 == e,
        },
    decreases old(r).bytes().len() - old(r).position(), 1int,
{
    if n == 0 {
        proof {
            assert(named_element_values_view(values@) + Seq::<SpecNamedElementValue>::empty()
                =~= named_element_values_view(values@));
        }
        Ok(())
    } else {
        let ghost s = old(r).bytes();
        let value = match NamedElementValue::read(r) {
            Ok(v) => v,
            Err(e) => { return Err(e); },
        };
        proof {
            lemma_named_element_values_view_push(values@, value);
        }
        let ghost mid = values@.push(value);
        values.push(value);
        match read_named_element_values(r, (n - 1) as u16, values) {
            Ok(()) => {
                proof {
                    match spec_read_named_element_values(s, final(r).position(), n as int - 1) {
                        Ok(v) => {
                            assert(named_element_values_view(mid) + v.0
                                =~= named_element_values_view(mid.drop_last()) + (seq![value@]
                                + v.0));
                        },
                        Err(_) => {},
                    }
                    assert(mid.drop_last() =~= old(values)@);
                }
                Ok(())
            },
            Err(e) => Err(e),
        }
    }
}

impl NamedElementValue {
    /// Reads one named member: a name index, then its value.
    pub fn read(r: &mut Reader) -> (res: Result<NamedElementValue, Error>)
        requires
            old(r).wf(),
        ensures
            final(r).bytes() == old(r).bytes(),
            final(r).wf(),
            old(r).position() <= final(r).position(),
            res is Ok ==> old(r).position() < final(r).position(),
            match spec_read_named_element_value(old(r).bytes(), old(r).position()) {
                Ok(v) => res matches Ok(nv) && nv@ == v.0 && final(r).position() == v.1,
                Err(e) => res matches Err(e2) && e2 == e,
            },
        decreases old(r).bytes().len() - old(r).position(), 0int,
    {
        let name_index = match r.read_u16() {
            Ok(v) => v,
            Err(e) => { return Err(e); },
        };
        let value = match ElementValue::read(r) {
            Ok(v) => v,
            Err(e) => { return Err(e); },
        };
        Ok(NamedElementValue { name_index: name_index as usize, value })
    }

    /// The member's name, resolved through the pool.
    pub fn name<'a>(&self, constant_pool: &'a ConstantPool) -> (r: Option<&'a str>)
        ensures
            match r {
                Some(s) => pool_get_str(constant_pool@, self.name_index as int) == Some(s@),
                None => pool_get_str(constant_pool@, self.name_index as int) is None,
            },
    {
        constant_pool.get_str(self.name_index)
    }
}

impl Annotation {
    /// Reads one annotation: a type index, a member count, then the
    /// members.
    pub fn read(r: &mut Reader) -> (res: Result<Annotation, Error>)
        requires
            old(r).wf(),
        ensures
            final(r).bytes() == old(r).bytes(),
            final(r).wf(),
            old(r).position() <= final(r).position(),
            res is Ok ==> old(r).position() < final(r).position(),
            match spec_read_annotation(old(r).bytes(), old(r).position()) {
                Ok(v) => res matches Ok(a) && a@ == v.0 && final(r).position() == v.1,
                Err(e) => res matches Err(e2) && e2 == e,
            },
        decreases old(r).bytes().len() - old(r).position(), 0int,
    {
        let type_index = match r.read_u16() {
            Ok(v) => v,
            Err(e) => { return Err(e); },
        };
        let n = match r.read_u16() {
            Ok(v) => v,
            Err(e) => { return Err(e); },
        };
        let mut element_values: Vec<NamedElementValue> = Vec::new();
        match read_named_element_values(r, n, &mut element_values) {
            Ok(()) => {
                proof {
                    assert(named_element_values_view(Seq::<NamedElementValue>::empty())
                        + spec_read_named_element_values(
                        old(r).bytes(),
                        old(r).position() + 4,
                        n as int,
                    )->Ok_0.0 =~= spec_read_named_element_values(
                        old(r).bytes(),
                        old(r).position() + 4,
                        n as int,
                    )->Ok_0.0);
                }
                Ok(Annotation { type_index: type_index as usize, element_values })
            },
            Err(e) => Err(e),
        }
    }

    /// The annotation's type descriptor, resolved through the pool.
    pub fn ty<'a>(&self, constant_pool: &'a ConstantPool) -> (r: Option<&'a str>)
        ensures
            match r {
                Some(s) => pool_get_str(constant_pool@, self.type_index as int) == Some(s@),
                None => pool_get_str(constant_pool@, self.type_index as int) is None,
            },
    {
        constant_pool.get_str(self.type_index)
    }

    /// The named members, in file order.
    pub fn element_values(&self) -> (r: &Vec<NamedElementValue>)
        ensures
            named_element_values_view(r@) == self@.element_values,
    {
        &self.element_values
    }
}

impl RuntimeVisibleAnnotationsAttrInfo {
    #[verifier::loop_isolation(false)]
    pub fn read(r: &mut Reader, _pool: &ConstantPool) -> (res: Result<
        RuntimeVisibleAnnotationsAttrInfo,
        Error,
    >)
        requires
            old(r).wf(),
        ensures
            final(r).bytes() == old(r).bytes(),
            final(r).wf(),
            old(r).position() <= final(r).position(),
            match spec_read_runtime_visible_annotations(old(r).bytes(), old(r).position()) {
                Ok(v) => res matches Ok(t) && t@ == v.0 && final(r).position() == v.1,
                Err(e) => res matches Err(e2) && e2 == e,
            },
    {
        let ghost s = old(r).bytes();
        let ghost pos0 = old(r).position();
        let n = match r.read_u16() {
            Ok(v) => v,
            Err(e) => { return Err(e); },
        };
        let mut annotations: Vec<Annotation> = Vec::new();
        let mut i: usize = 0;
        while i < n as usize
            invariant
                r.wf(),
                r.bytes() == s,
                i <= n as usize,
                pos0 + 2 <= r.position(),
                match spec_read_annotations(s, r.position(), n as int - i) {
                    Ok(v) => spec_read_annotations(s, pos0 + 2, n as int) == Ok::<_, Error>(
                        (annotations_view(annotations@) + v.0, v.1),
                    ),
                    Err(e) => spec_read_annotations(s, pos0 + 2, n as int) == Err::<
                        (Seq<SpecAnnotation>, int),
                        _,
                    >(e),
                },
            decreases n as int - i,
        {
            let ghost p_before = r.position();
            let annotation = match Annotation::read(r) {
                Ok(v) => v,
                Err(e) => { return Err(e); },
            };
            proof {
                match spec_read_annotations(s, r.position(), n as int - i - 1) {
                    Ok(v) => {
                        assert(spec_read_annotations(s, p_before, n as int - i) == Ok::<_, Error>(
                            (seq![annotation@] + v.0, v.1),
                        ));
                        lemma_annotations_view_push(annotations@, annotation);
                        assert(annotations_view(annotations@).push(annotation@) + v.0
                            =~= annotations_view(annotations@) + (seq![annotation@] + v.0));
                    },
                    Err(_) => {},
                }
            }
            annotations.push(annotation);
            i = i + 1;
        }
        proof {
            assert(annotations_view(annotations@) + Seq::<SpecAnnotation>::empty()
                =~= annotations_view(annotations@));
        }
        Ok(RuntimeVisibleAnnotationsAttrInfo { annotations })
    }

    /// The decoded annotations, in file order.
    pub fn annotations(&self) -> (r: &Vec<Annotation>)
        ensures
            annotations_view(r@) == self@,
    {
        &self.annotations
    }
}

impl ConstValueInfo {
    /// The referenced entry, whatever its kind.
    pub fn value<'a>(&self, constant_pool: &'a ConstantPool) -> (r: Option<&'a ConstantPoolEntry>)
        ensures
            match r {
                Some(e) => pool_get(constant_pool@, self.index as int) == Some(e@),
                None => pool_get(constant_pool@, self.index as int) is None,
            },
    {
        constant_pool.get(self.index)
    }
}

impl EnumConstValueInfo {
    /// The enum's type name, resolved through the pool.
    pub fn ty_name<'a>(&self, constant_pool: &'a ConstantPool) -> (r: Option<&'a str>)
        ensures
            match r {
                Some(s) => pool_get_str(constant_pool@, self.type_name_index as int) == Some(s@),
                None => pool_get_str(constant_pool@, self.type_name_index as int) is None,
            },
    {
        constant_pool.get_str(self.type_name_index)
    }

    /// The enum constant's name, resolved through the pool.
    pub fn const_name<'a>(&self, constant_pool: &'a ConstantPool) -> (r: Option<&'a str>)
        ensures
            match r {
                Some(s) => pool_get_str(constant_pool@, self.const_name_index as int) == Some(s@),
                None => pool_get_str(constant_pool@, self.const_name_index as int) is None,
            },
    {
        constant_pool.get_str(self.const_name_index)
    }
}

impl ClassInfo {
    /// The class descriptor, resolved through the pool.
    pub fn class<'a>(&self, constant_pool: &'a ConstantPool) -> (r: Option<&'a str>)
        ensures
            match r {
                Some(s) => pool_get_str(constant_pool@, self.index as int) == Some(s@),
                None => pool_get_str(constant_pool@, self.index as int) is None,
            },
    {
        constant_pool.get_str(self.index)
    }
}

} // verus!
