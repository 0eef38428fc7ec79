//! The constant pool: a count-prefixed table of tagged entries, indexed
//! from 1, in which a `Long` or `Double` entry consumes two index slots.
//!
//! The pool is stored as a flat physical list, one element per decoded
//! entry; lookup walks from 1-based logical index to physical position
//! explicitly, and a logical slot swallowed by a two-slot entry yields
//! an absent lookup, never an adjacent entry.

use vstd::prelude::*;
use vstd::utf8::{decode_utf8, valid_utf8};

use crate::error::Error;
use crate::reader::{be_i32_at, be_i64_at, be_u16_at, be_u32_at, be_u64_at, can_read, Reader};
use crate::text::string_from_utf8;

verus! {

pub const CONSTANT_UTF8: u8 = 1;
pub const CONSTANT_INTEGER: u8 = 3;
pub const CONSTANT_FLOAT: u8 = 4;
pub const CONSTANT_LONG: u8 = 5;
pub const CONSTANT_DOUBLE: u8 = 6;
pub const CONSTANT_CLASS: u8 = 7;
pub const CONSTANT_STRING: u8 = 8;
pub const CONSTANT_FIELDREF: u8 = 9;
pub const CONSTANT_METHODREF: u8 = 10;
pub const CONSTANT_INTERFACEMETHODREF: u8 = 11;
pub const CONSTANT_NAMEANDTYPE: u8 = 12;
pub const CONSTANT_METHODHANDLE: u8 = 15;
pub const CONSTANT_METHODTYPE: u8 = 16;
pub const CONSTANT_INVOKEDYNAMIC: u8 = 18;

/// A symbolic reference to a class; the index points at a `Utf8` entry
/// holding the class name.
#[derive(Debug, Clone, Copy, PartialEq, Eq, Structural)]
pub struct ConstantClassInfo {
    pub name_index: usize,
}

/// A reference to a field: a class index and a name-and-type index.
#[derive(Debug, Clone, Copy, PartialEq, Eq, Structural)]
pub struct ConstantFieldRefInfo {
    pub class_index: usize,
    pub name_and_type_index: usize,
}

/// A reference to a method: a class index and a name-and-type index.
#[derive(Debug, Clone, Copy, PartialEq, Eq, Structural)]
pub struct ConstantMethodRefInfo {
    pub class_index: usize,
    pub name_and_type_index: usize,
}

/// A reference to an interface method: a class index and a name-and-type
/// index.
#[derive(Debug, Clone, Copy, PartialEq, Eq, Structural)]
pub struct ConstantInterfaceMethodRefInfo {
    pub class_index: usize,
    pub name_and_type_index: usize,
}

/// A string literal; the index points at a `Utf8` entry holding its text.
#[derive(Debug, Clone, Copy, PartialEq, Eq, Structural)]
pub struct ConstantStringInfo {
    pub string_index: usize,
}

/// A 32-bit integer constant.
#[derive(Debug, Clone, Copy, PartialEq, Eq, Structural)]
pub struct ConstantIntegerInfo {
    pub value: i32,
}

/// A 32-bit floating-point constant, kept as its raw big-endian bit
/// pattern; the library never interprets it numerically.
#[derive(Debug, Clone, Copy, PartialEq, Eq, Structural)]
pub struct ConstantFloatInfo {
    pub bits: u32,
}

/// A 64-bit integer constant; consumes two index slots.
#[derive(Debug, Clone, Copy, PartialEq, Eq, Structural)]
pub struct ConstantLongInfo {
    pub value: i64,
}

/// A 64-bit floating-point constant, kept as its raw big-endian bit
/// pattern; consumes two index slots.
#[derive(Debug, Clone, Copy, PartialEq, Eq, Structural)]
pub struct ConstantDoubleInfo {
    pub bits: u64,
}

/// A name paired with a descriptor, both as `Utf8` indices.
#[derive(Debug, Clone, Copy, PartialEq, Eq, Structural)]
pub struct ConstantNameAndTypeInfo {
    pub name_index: usize,
    pub descriptor_index: usize,
}

/// A UTF-8 text entry, decoded once at read time.
#[derive(Debug, Clone, PartialEq, Eq)]
pub struct ConstantUtf8Info {
    pub value: String,
}

/// A method handle: a reference kind byte and an index whose expected
/// entry kind depends on it.
#[derive(Debug, Clone, Copy, PartialEq, Eq, Structural)]
pub struct ConstantMethodHandleInfo {
    pub ref_kind: u8,
    pub ref_index: usize,
}

/// A method type: a descriptor as a `Utf8` index.
#[derive(Debug, Clone, Copy, PartialEq, Eq, Structural)]
pub struct ConstantMethodTypeInfo {
    pub desc_index: usize,
}

/// An invokedynamic call site: a bootstrap-method index and a
/// name-and-type index.
#[derive(Debug, Clone, Copy, PartialEq, Eq, Structural)]
pub struct ConstantInvokedDynamicInfo {
    pub bootstrap_method_attr_index: usize,
    pub name_and_type_index: usize,
}

/// One constant-pool entry: a closed tagged union over the fourteen
/// payload kinds.
#[derive(Debug, Clone, PartialEq, Eq)]
pub enum ConstantPoolEntry {
    Class(ConstantClassInfo),
    FieldRef(ConstantFieldRefInfo),
    MethodRef(ConstantMethodRefInfo),
    InterfaceMethodRef(ConstantInterfaceMethodRefInfo),
    String(ConstantStringInfo),
    Integer(ConstantIntegerInfo),
    Float(ConstantFloatInfo),
    Long(ConstantLongInfo),
    Double(ConstantDoubleInfo),
    NameAndType(ConstantNameAndTypeInfo),
    Utf8(ConstantUtf8Info),
    MethodHandle(ConstantMethodHandleInfo),
    MethodType(ConstantMethodTypeInfo),
    InvokedDynamic(ConstantInvokedDynamicInfo),
}

/// The mathematical model of a constant-pool entry: identical to the
/// executable form except that decoded text is a character sequence.
pub enum SpecEntry {
    Class(ConstantClassInfo),
    FieldRef(ConstantFieldRefInfo),
    MethodRef(ConstantMethodRefInfo),
    InterfaceMethodRef(ConstantInterfaceMethodRefInfo),
    String(ConstantStringInfo),
    Integer(ConstantIntegerInfo),
    Float(ConstantFloatInfo),
    Long(ConstantLongInfo),
    Double(ConstantDoubleInfo),
    NameAndType(ConstantNameAndTypeInfo),
    Utf8(Seq<char>),
    MethodHandle(ConstantMethodHandleInfo),
    MethodType(ConstantMethodTypeInfo),
    InvokedDynamic(ConstantInvokedDynamicInfo),
}

impl View for ConstantPoolEntry {
    type V = SpecEntry;

    open spec fn view(&self) -> SpecEntry {
        match *self {
            ConstantPoolEntry::Class(info) => SpecEntry::Class(info),
            ConstantPoolEntry::FieldRef(info) => SpecEntry::FieldRef(info),
            ConstantPoolEntry::MethodRef(info) => SpecEntry::MethodRef(info),
            ConstantPoolEntry::InterfaceMethodRef(info) => SpecEntry::InterfaceMethodRef(info),
            ConstantPoolEntry::String(info) => SpecEntry::String(info),
            ConstantPoolEntry::Integer(info) => SpecEntry::Integer(info),
            ConstantPoolEntry::Float(info) => SpecEntry::Float(info),
            ConstantPoolEntry::Long(info) => SpecEntry::Long(info),
            ConstantPoolEntry::Double(info) => SpecEntry::Double(info),
            ConstantPoolEntry::NameAndType(info) => SpecEntry::NameAndType(info),
            ConstantPoolEntry::Utf8(info) => SpecEntry::Utf8(info.value@),
            ConstantPoolEntry::MethodHandle(info) => SpecEntry::MethodHandle(info),
            ConstantPoolEntry::MethodType(info) => SpecEntry::MethodType(info),
            ConstantPoolEntry::InvokedDynamic(info) => SpecEntry::InvokedDynamic(info),
        }
    }
}

/// How many logical index slots an entry consumes: two for `Long` and
/// `Double`, one for every other kind.
pub open spec fn entry_width(e: SpecEntry) -> int {
    match e {
        SpecEntry::Long(_) => 2,
        SpecEntry::Double(_) => 2,
        _ => 1,
    }
}

/// The models of a physical entry list.
pub open spec fn entries_view(s: Seq<ConstantPoolEntry>) -> Seq<SpecEntry> {
    Seq::new(s.len(), |i: int| s[i]@)
}

/// Lookup by offset from the first usable slot: offset 0 is the first
/// entry; an offset that lands inside a two-slot entry is absent.
pub open spec fn pool_get_offset(entries: Seq<SpecEntry>, off: int) -> Option<SpecEntry>
    decreases entries.len(),
{
    if entries.len() == 0 {
        None
    } else if off == 0 {
        Some(entries[0])
    } else if off < entry_width(entries[0]) {
        None
    } else {
        pool_get_offset(entries.drop_first(), off - entry_width(entries[0]))
    }
}

/// Lookup by 1-based logical index; index 0 (and any negative index) is
/// reserved and always absent.
pub open spec fn pool_get(entries: Seq<SpecEntry>, index: int) -> Option<SpecEntry> {
    if index < 1 {
        None
    } else {
        pool_get_offset(entries, index - 1)
    }
}

/// Lookup that succeeds only on a `Utf8` entry, yielding its text.
pub open spec fn pool_get_str(entries: Seq<SpecEntry>, index: int) -> Option<Seq<char>> {
    match pool_get(entries, index) {
        Some(SpecEntry::Utf8(s)) => Some(s),
        _ => None,
    }
}

/// Lookup that succeeds only on a `Class` entry.
pub open spec fn pool_get_class_info(entries: Seq<SpecEntry>, index: int) -> Option<
    ConstantClassInfo,
> {
    match pool_get(entries, index) {
        Some(SpecEntry::Class(c)) => Some(c),
        _ => None,
    }
}

/// The total number of logical slots the entries consume.
pub open spec fn pool_width(entries: Seq<SpecEntry>) -> int
    decreases entries.len(),
{
    if entries.len() == 0 {
        0
    } else {
        entry_width(entries[0]) + pool_width(entries.drop_first())
    }
}

/// The logical offset of physical entry `k`: the widths of the entries
/// before it, summed.
pub open spec fn pool_offset_of(entries: Seq<SpecEntry>, k: int) -> int
    decreases k,
{
    if k <= 0 {
        0
    } else {
        pool_offset_of(entries, k - 1) + entry_width(entries[k - 1])
    }
}

/// The 1-based logical index of physical entry `k`.
pub open spec fn pool_index_of(entries: Seq<SpecEntry>, k: int) -> int {
    1 + pool_offset_of(entries, k)
}

pub proof fn lemma_pool_width_nonneg(entries: Seq<SpecEntry>)
    ensures
        pool_width(entries) >= 0,
    decreases entries.len(),
{
    if entries.len() > 0 {
        lemma_pool_width_nonneg(entries.drop_first());
    }
}

proof fn lemma_pool_offset_of_nonneg(entries: Seq<SpecEntry>, k: int)
    ensures
        pool_offset_of(entries, k) >= 0,
    decreases k,
{
    if k > 0 {
        lemma_pool_offset_of_nonneg(entries, k - 1);
    }
}

proof fn lemma_pool_offset_of_shift(entries: Seq<SpecEntry>, k: int)
    requires
        1 <= k <= entries.len(),
    ensures
        pool_offset_of(entries, k) == entry_width(entries[0]) + pool_offset_of(
            entries.drop_first(),
            k - 1,
        ),
    decreases k,
{
    reveal_with_fuel(pool_offset_of, 2);
    if k > 1 {
        lemma_pool_offset_of_shift(entries, k - 1);
        assert(entries.drop_first()[k - 2] == entries[k - 1]);
    }
}

/// Indexing law: lookup at index 0 is always absent, and lookup at any
/// index beyond the pool's logical width is always absent.
pub proof fn lemma_pool_get_out_of_range(entries: Seq<SpecEntry>, index: int)
    requires
        index < 1 || index > pool_width(entries),
    ensures
        pool_get(entries, index) is None,
{
    if index >= 1 {
        lemma_pool_get_offset_past_width(entries, index - 1);
    }
}

proof fn lemma_pool_get_offset_past_width(entries: Seq<SpecEntry>, off: int)
    requires
        off >= pool_width(entries),
    ensures
        pool_get_offset(entries, off) is None,
    decreases entries.len(),
{
    if entries.len() > 0 {
        lemma_pool_width_nonneg(entries.drop_first());
        lemma_pool_get_offset_past_width(entries.drop_first(), off - entry_width(entries[0]));
    }
}

/// Index law for two-slot entries: every physical entry is found at its
/// logical index; when it is a `Long` or `Double`, the following logical
/// slot is absent; and the next physical entry (if any) is found at the
/// slot after the current entry's width.
pub proof fn lemma_pool_index_law(entries: Seq<SpecEntry>, k: int)
    requires
        0 <= k < entries.len(),
    ensures
        pool_get(entries, pool_index_of(entries, k)) == Some(entries[k]),
        entry_width(entries[k]) == 2 ==> pool_get(entries, pool_index_of(entries, k) + 1)
            is None,
        k + 1 < entries.len() ==> pool_get(
            entries,
            pool_index_of(entries, k) + entry_width(entries[k]),
        ) == Some(entries[k + 1]),
    decreases k,
{
    let rest = entries.drop_first();
    if k == 0 {
        assert(pool_get_offset(entries, 0) == Some(entries[0]));
        if k + 1 < entries.len() {
            assert(rest[0] == entries[1]);
            assert(pool_get_offset(entries, entry_width(entries[0])) == pool_get_offset(rest, 0));
        }
    } else {
        lemma_pool_index_law(rest, k - 1);
        lemma_pool_offset_of_shift(entries, k);
        lemma_pool_offset_of_nonneg(rest, k - 1);
        let w0 = entry_width(entries[0]);
        let off = pool_offset_of(entries, k);
        assert(rest[k - 1] == entries[k]);
        assert(pool_get_offset(entries, off) == pool_get_offset(rest, off - w0));
        if entry_width(entries[k]) == 2 {
            assert(pool_get_offset(entries, off + 1) == pool_get_offset(rest, off + 1 - w0));
        }
        if k + 1 < entries.len() {
            assert(rest[k] == entries[k + 1]);
            assert(pool_get_offset(entries, off + entry_width(entries[k])) == pool_get_offset(
                rest,
                off + entry_width(entries[k]) - w0,
            ));
        }
    }
}

/// Reads a `Class` entry payload: one index.
pub open spec fn spec_read_class_info(s: Seq<u8>, pos: int) -> Result<
    (ConstantClassInfo, int),
    Error,
> {
    if can_read(s, pos, 2) {
        Ok((ConstantClassInfo { name_index: be_u16_at(s, pos) as usize }, pos + 2))
    } else {
        Err(Error::Truncation)
    }
}

/// Reads a `FieldRef` entry payload: two indices.
pub open spec fn spec_read_field_ref_info(s: Seq<u8>, pos: int) -> Result<
    (ConstantFieldRefInfo, int),
    Error,
> {
    if can_read(s, pos, 4) {
        Ok(
            (
                ConstantFieldRefInfo {
                    class_index: be_u16_at(s, pos) as usize,
                    name_and_type_index: be_u16_at(s, pos + 2) as usize,
                },
                pos + 4,
            ),
        )
    } else {
        Err(Error::Truncation)
    }
}

/// Reads a `MethodRef` entry payload: two indices.
pub open spec fn spec_read_method_ref_info(s: Seq<u8>, pos: int) -> Result<
    (ConstantMethodRefInfo, int),
    Error,
> {
    if can_read(s, pos, 4) {
        Ok(
            (
                ConstantMethodRefInfo {
                    class_index: be_u16_at(s, pos) as usize,
                    name_and_type_index: be_u16_at(s, pos + 2) as usize,
                },
                pos + 4,
            ),
        )
    } else {
        Err(Error::Truncation)
    }
}

/// Reads an `InterfaceMethodRef` entry payload: two indices.
pub open spec fn spec_read_interface_method_ref_info(s: Seq<u8>, pos: int) -> Result<
    (ConstantInterfaceMethodRefInfo, int),
    Error,
> {
    if can_read(s, pos, 4) {
        Ok(
            (
                ConstantInterfaceMethodRefInfo {
                    class_index: be_u16_at(s, pos) as usize,
                    name_and_type_index: be_u16_at(s, pos + 2) as usize,
                },
                pos + 4,
            ),
        )
    } else {
        Err(Error::Truncation)
    }
}

/// Reads a `String` entry payload: one index.
pub open spec fn spec_read_string_info(s: Seq<u8>, pos: int) -> Result<
    (ConstantStringInfo, int),
    Error,
> {
    if can_read(s, pos, 2) {
        Ok((ConstantStringInfo { string_index: be_u16_at(s, pos) as usize }, pos + 2))
    } else {
        Err(Error::Truncation)
    }
}

/// Reads an `Integer` entry payload: a signed 32-bit big-endian value.
pub open spec fn spec_read_integer_info(s: Seq<u8>, pos: int) -> Result<
    (ConstantIntegerInfo, int),
    Error,
> {
    if can_read(s, pos, 4) {
        Ok((ConstantIntegerInfo { value: be_i32_at(s, pos) }, pos + 4))
    } else {
        Err(Error::Truncation)
    }
}

/// Reads a `Float` entry payload: its raw 32-bit bit pattern.
pub open spec fn spec_read_float_info(s: Seq<u8>, pos: int) -> Result<
    (ConstantFloatInfo, int),
    Error,
> {
    if can_read(s, pos, 4) {
        Ok((ConstantFloatInfo { bits: be_u32_at(s, pos) }, pos + 4))
    } else {
        Err(Error::Truncation)
    }
}

/// Reads a `Long` entry payload: a signed 64-bit big-endian value.
pub open spec fn spec_read_long_info(s: Seq<u8>, pos: int) -> Result<
    (ConstantLongInfo, int),
    Error,
> {
    if can_read(s, pos, 8) {
        Ok((ConstantLongInfo { value: be_i64_at(s, pos) }, pos + 8))
    } else {
        Err(Error::Truncation)
    }
}

/// Reads a `Double` entry payload: its raw 64-bit bit pattern.
pub open spec fn spec_read_double_info(s: Seq<u8>, pos: int) -> Result<
    (ConstantDoubleInfo, int),
    Error,
> {
    if can_read(s, pos, 8) {
        Ok((ConstantDoubleInfo { bits: be_u64_at(s, pos) }, pos + 8))
    } else {
        Err(Error::Truncation)
    }
}

/// Reads a `NameAndType` entry payload: two indices.
pub open spec fn spec_read_name_and_type_info(s: Seq<u8>, pos: int) -> Result<
    (ConstantNameAndTypeInfo, int),
    Error,
> {
    if can_read(s, pos, 4) {
        Ok(
            (
                ConstantNameAndTypeInfo {
                    name_index: be_u16_at(s, pos) as usize,
                    descriptor_index: be_u16_at(s, pos + 2) as usize,
                },
                pos + 4,
            ),
        )
    } else {
        Err(Error::Truncation)
    }
}

/// Reads a `Utf8` entry payload: a length-prefixed byte run that must be
/// valid UTF-8 text.
pub open spec fn spec_read_utf8(s: Seq<u8>, pos: int) -> Result<(Seq<char>, int), Error> {
    if !can_read(s, pos, 2) {
        Err(Error::Truncation)
    } else {
        let n = be_u16_at(s, pos) as int;
        if !can_read(s, pos + 2, n) {
            Err(Error::Truncation)
        } else {
            let bytes = s.subrange(pos + 2, pos + 2 + n);
            if valid_utf8(bytes) {
                Ok((decode_utf8(bytes), pos + 2 + n))
            } else {
                Err(Error::Utf8DecodeError)
            }
        }
    }
}

/// Reads a `MethodHandle` entry payload: a kind byte and an index.
pub open spec fn spec_read_method_handle_info(s: Seq<u8>, pos: int) -> Result<
    (ConstantMethodHandleInfo, int),
    Error,
> {
    if can_read(s, pos, 3) {
        Ok(
            (
                ConstantMethodHandleInfo {
                    ref_kind: s[pos],
                    ref_index: be_u16_at(s, pos + 1) as usize,
                },
                pos + 3,
            ),
        )
    } else {
        Err(Error::Truncation)
    }
}

/// Reads a `MethodType` entry payload: one index.
pub open spec fn spec_read_method_type_info(s: Seq<u8>, pos: int) -> Result<
    (ConstantMethodTypeInfo, int),
    Error,
> {
    if can_read(s, pos, 2) {
        Ok((ConstantMethodTypeInfo { desc_index: be_u16_at(s, pos) as usize }, pos + 2))
    } else {
        Err(Error::Truncation)
    }
}

/// Reads an `InvokeDynamic` entry payload: two indices.
pub open spec fn spec_read_invoked_dynamic_info(s: Seq<u8>, pos: int) -> Result<
    (ConstantInvokedDynamicInfo, int),
    Error,
> {
    if can_read(s, pos, 4) {
        Ok(
            (
                ConstantInvokedDynamicInfo {
                    bootstrap_method_attr_index: be_u16_at(s, pos) as usize,
                    name_and_type_index: be_u16_at(s, pos + 2) as usize,
                },
                pos + 4,
            ),
        )
    } else {
        Err(Error::Truncation)
    }
}

/// Reads one tagged entry: a tag byte, then the payload the tag selects.
/// An unrecognized tag is a hard `BadTagValue` error carrying the byte.
pub open spec fn spec_read_entry(s: Seq<u8>, pos: int) -> Result<(SpecEntry, int), Error> {
    if !can_read(s, pos, 1) {
        Err(Error::Truncation)
    } else {
        let tag = s[pos];
        let p = pos + 1;
        if tag == CONSTANT_CLASS {
            match spec_read_class_info(s, p) {
                Ok(v) => Ok((SpecEntry::Class(v.0), v.1)),
                Err(e) => Err(e),
            }
        } else if tag == CONSTANT_FIELDREF {
            match spec_read_field_ref_info(s, p) {
                Ok(v) => Ok((SpecEntry::FieldRef(v.0), v.1)),
                Err(e) => Err(e),
            }
        } else if tag == CONSTANT_METHODREF {
            match spec_read_method_ref_info(s, p) {
                Ok(v) => Ok((SpecEntry::MethodRef(v.0), v.1)),
                Err(e) => Err(e),
            }
        } else if tag == CONSTANT_INTERFACEMETHODREF {
            match spec_read_interface_method_ref_info(s, p) {
                Ok(v) => Ok((SpecEntry::InterfaceMethodRef(v.0), v.1)),
                Err(e) => Err(e),
            }
        } else if tag == CONSTANT_STRING {
            match spec_read_string_info(s, p) {
                Ok(v) => Ok((SpecEntry::String(v.0), v.1)),
                Err(e) => Err(e),
            }
        } else if tag == CONSTANT_INTEGER {
            match spec_read_integer_info(s, p) {
                Ok(v) => Ok((SpecEntry::Integer(v.0), v.1)),
                Err(e) => Err(e),
            }
        } else if tag == CONSTANT_FLOAT {
            match spec_read_float_info(s, p) {
                Ok(v) => Ok((SpecEntry::Float(v.0), v.1)),
                Err(e) => Err(e),
            }
        } else if tag == CONSTANT_LONG {
            match spec_read_long_info(s, p) {
                Ok(v) => Ok((SpecEntry::Long(v.0), v.1)),
                Err(e) => Err(e),
            }
        } else if tag == CONSTANT_DOUBLE {
            match spec_read_double_info(s, p) {
                Ok(v) => Ok((SpecEntry::Double(v.0), v.1)),
                Err(e) => Err(e),
            }
        } else if tag == CONSTANT_NAMEANDTYPE {
            match spec_read_name_and_type_info(s, p) {
                Ok(v) => Ok((SpecEntry::NameAndType(v.0), v.1)),
                Err(e) => Err(e),
            }
        } else if tag == CONSTANT_UTF8 {
            match spec_read_utf8(s, p) {
                Ok(v) => Ok((SpecEntry::Utf8(v.0), v.1)),
                Err(e) => Err(e),
            }
        } else if tag == CONSTANT_METHODHANDLE {
            match spec_read_method_handle_info(s, p) {
                Ok(v) => Ok((SpecEntry::MethodHandle(v.0), v.1)),
                Err(e) => Err(e),
            }
        } else if tag == CONSTANT_METHODTYPE {
            match spec_read_method_type_info(s, p) {
                Ok(v) => Ok((SpecEntry::MethodType(v.0), v.1)),
                Err(e) => Err(e),
            }
        } else if tag == CONSTANT_INVOKEDYNAMIC {
            match spec_read_invoked_dynamic_info(s, p) {
                Ok(v) => Ok((SpecEntry::InvokedDynamic(v.0), v.1)),
                Err(e) => Err(e),
            }
        } else {
            Err(Error::BadTagValue(tag))
        }
    }
}

/// Reads entries until `slots` logical slots are filled; an entry of
/// width two fills two at once, possibly overshooting the last slot.
pub open spec fn spec_read_pool_entries(s: Seq<u8>, pos: int, slots: int) -> Result<
    (Seq<SpecEntry>, int),
    Error,
>
    decreases slots,
{
    if slots <= 0 {
        Ok((Seq::empty(), pos))
    } else {
        match spec_read_entry(s, pos) {
            Err(e) => Err(e),
            Ok(v) => {
                let rest_slots = slots - entry_width(v.0);
                let clamped = if rest_slots < 0 {
                    0
                } else {
                    rest_slots
                };
                match spec_read_pool_entries(s, v.1, clamped) {
                    Err(e) => Err(e),
                    Ok(w) => Ok((seq![v.0] + w.0, w.1)),
                }
            },
        }
    }
}

/// Reads the whole pool: a 16-bit count (one more than the number of
/// usable slots), then the entries.
pub open spec fn spec_read_pool(s: Seq<u8>, pos: int) -> Result<(Seq<SpecEntry>, int), Error> {
    if !can_read(s, pos, 2) {
        Err(Error::Truncation)
    } else {
        spec_read_pool_entries(s, pos + 2, be_u16_at(s, pos) - 1)
    }
}

impl ConstantClassInfo {
    pub fn read(r: &mut Reader) -> (res: Result<ConstantClassInfo, Error>)
        requires
            old(r).wf(),
        ensures
            final(r).bytes() == old(r).bytes(),
            final(r).wf(),
            old(r).position() <= final(r).position(),
            match spec_read_class_info(old(r).bytes(), old(r).position()) {
                Ok(v) => res matches Ok(c) && c == v.0 && final(r).position() == v.1,
                Err(e) => res matches Err(e2) && e2 == e,
            },
    {
        let name_index = match r.read_u16() {
            Ok(v) => v,
            Err(e) => { return Err(e); },
        };
        Ok(ConstantClassInfo { name_index: name_index as usize })
    }

    /// The class name, resolved through the pool; absent unless the index
    /// holds a `Utf8` entry.
    pub fn get_name<'a>(&self, pool: &'a ConstantPool) -> (r: Option<&'a str>)
        ensures
            match r {
                Some(s) => pool_get_str(pool@, self.name_index as int) == Some(s@),
                None => pool_get_str(pool@, self.name_index as int) is None,
            },
    {
        pool.get_str(self.name_index)
    }
}

impl ConstantFieldRefInfo {
    pub fn read(r: &mut Reader) -> (res: Result<ConstantFieldRefInfo, Error>)
        requires
            old(r).wf(),
        ensures
            final(r).bytes() == old(r).bytes(),
            final(r).wf(),
            old(r).position() <= final(r).position(),
            match spec_read_field_ref_info(old(r).bytes(), old(r).position()) {
                Ok(v) => res matches Ok(c) && c == v.0 && final(r).position() == v.1,
                Err(e) => res matches Err(e2) && e2 == e,
            },
    {
        let class_index = match r.read_u16() {
            Ok(v) => v,
            Err(e) => { return Err(e); },
        };
        let name_and_type_index = match r.read_u16() {
            Ok(v) => v,
            Err(e) => { return Err(e); },
        };
        Ok(
            ConstantFieldRefInfo {
                class_index: class_index as usize,
                name_and_type_index: name_and_type_index as usize,
            },
        )
    }

    /// The referenced class, resolved through the pool.
    pub fn get_class<'a>(&self, pool: &'a ConstantPool) -> (r: Option<&'a ConstantClassInfo>)
        ensures
            match r {
                Some(c) => pool_get_class_info(pool@, self.class_index as int) == Some(*c),
                None => pool_get_class_info(pool@, self.class_index as int) is None,
            },
    {
        pool.get_class_info(self.class_index)
    }

    /// The referenced name-and-type entry, resolved through the pool.
    pub fn get_name_and_type<'a>(&self, pool: &'a ConstantPool) -> (r: Option<
        &'a ConstantNameAndTypeInfo,
    >)
        ensures
            match r {
                Some(i) => pool_get(pool@, self.name_and_type_index as int) == Some(
                    SpecEntry::NameAndType(*i),
                ),
                None => !(pool_get(pool@, self.name_and_type_index as int) matches Some(
                    SpecEntry::NameAndType(_),
                )),
            },
    {
        match pool.get(self.name_and_type_index) {
            Some(entry) => match entry {
                ConstantPoolEntry::NameAndType(info) => Some(info),
                _ => None,
            },
            None => None,
        }
    }
}

impl ConstantMethodRefInfo {
    pub fn read(r: &mut Reader) -> (res: Result<ConstantMethodRefInfo, Error>)
        requires
            old(r).wf(),
        ensures
            final(r).bytes() == old(r).bytes(),
            final(r).wf(),
            old(r).position() <= final(r).position(),
            match spec_read_method_ref_info(old(r).bytes(), old(r).position()) {
                Ok(v) => res matches Ok(c) && c == v.0 && final(r).position() == v.1,
                Err(e) => res matches Err(e2) && e2 == e,
            },
    {
        let class_index = match r.read_u16() {
            Ok(v) => v,
            Err(e) => { return Err(e); },
        };
        let name_and_type_index = match r.read_u16() {
            Ok(v) => v,
            Err(e) => { return Err(e); },
        };
        Ok(
            ConstantMethodRefInfo {
                class_index: class_index as usize,
                name_and_type_index: name_and_type_index as usize,
            },
        )
    }

    /// The referenced class, resolved through the pool.
    pub fn get_class<'a>(&self, pool: &'a ConstantPool) -> (r: Option<&'a ConstantClassInfo>)
        ensures
            match r {
                Some(c) => pool_get_class_info(pool@, self.class_index as int) == Some(*c),
                None => pool_get_class_info(pool@, self.class_index as int) is None,
            },
    {
        pool.get_class_info(self.class_index)
    }

    /// The referenced name-and-type entry, resolved through the pool.
    pub fn get_name_and_type<'a>(&self, pool: &'a ConstantPool) -> (r: Option<
        &'a ConstantNameAndTypeInfo,
    >)
        ensures
            match r {
                Some(i) => pool_get(pool@, self.name_and_type_index as int) == Some(
                    SpecEntry::NameAndType(*i),
                ),
                None => !(pool_get(pool@, self.name_and_type_index as int) matches Some(
                    SpecEntry::NameAndType(_),
                )),
            },
    {
        match pool.get(self.name_and_type_index) {
            Some(entry) => match entry {
                ConstantPoolEntry::NameAndType(info) => Some(info),
                _ => None,
            },
            None => None,
        }
    }
}

impl ConstantInterfaceMethodRefInfo {
    pub fn read(r: &mut Reader) -> (res: Result<ConstantInterfaceMethodRefInfo, Error>)
        requires
            old(r).wf(),
        ensures
            final(r).bytes() == old(r).bytes(),
            final(r).wf(),
            old(r).position() <= final(r).position(),
            match spec_read_interface_method_ref_info(old(r).bytes(), old(r).position()) {
                Ok(v) => res matches Ok(c) && c == v.0 && final(r).position() == v.1,
                Err(e) => res matches Err(e2) && e2 == e,
            },
    {
        let class_index = match r.read_u16() {
            Ok(v) => v,
            Err(e) => { return Err(e); },
        };
        let name_and_type_index = match r.read_u16() {
            Ok(v) => v,
            Err(e) => { return Err(e); },
        };
        Ok(
            ConstantInterfaceMethodRefInfo {
                class_index: class_index as usize,
                name_and_type_index: name_and_type_index as usize,
            },
        )
    }

    /// The referenced class, resolved through the pool.
    pub fn get_class<'a>(&self, pool: &'a ConstantPool) -> (r: Option<&'a ConstantClassInfo>)
        ensures
            match r {
                Some(c) => pool_get_class_info(pool@, self.class_index as int) == Some(*c),
                None => pool_get_class_info(pool@, self.class_index as int) is None,
            },
    {
        pool.get_class_info(self.class_index)
    }

    /// The referenced name-and-type entry, resolved through the pool.
    pub fn get_name_and_type<'a>(&self, pool: &'a ConstantPool) -> (r: Option<
        &'a ConstantNameAndTypeInfo,
    >)
        ensures
            match r {
                Some(i) => pool_get(pool@, self.name_and_type_index as int) == Some(
                    SpecEntry::NameAndType(*i),
                ),
                None => !(pool_get(pool@, self.name_and_type_index as int) matches Some(
                    SpecEntry::NameAndType(_),
                )),
            },
    {
        match pool.get(self.name_and_type_index) {
            Some(entry) => match entry {
                ConstantPoolEntry::NameAndType(info) => Some(info),
                _ => None,
            },
            None => None,
        }
    }
}

impl ConstantStringInfo {
    pub fn read(r: &mut Reader) -> (res: Result<ConstantStringInfo, Error>)
        requires
            old(r).wf(),
        ensures
            final(r).bytes() == old(r).bytes(),
            final(r).wf(),
            old(r).position() <= final(r).position(),
            match spec_read_string_info(old(r).bytes(), old(r).position()) {
                Ok(v) => res matches Ok(c) && c == v.0 && final(r).position() == v.1,
                Err(e) => res matches Err(e2) && e2 == e,
            },
    {
        let string_index = match r.read_u16() {
            Ok(v) => v,
            Err(e) => { return Err(e); },
        };
        Ok(ConstantStringInfo { string_index: string_index as usize })
    }

    /// The string text, resolved through the pool; absent unless the
    /// index holds a `Utf8` entry.
    pub fn get_value<'a>(&self, pool: &'a ConstantPool) -> (r: Option<&'a str>)
        ensures
            match r {
                Some(s) => pool_get_str(pool@, self.string_index as int) == Some(s@),
                None => pool_get_str(pool@, self.string_index as int) is None,
            },
    {
        pool.get_str(self.string_index)
    }
}

impl ConstantIntegerInfo {
    pub fn read(r: &mut Reader) -> (res: Result<ConstantIntegerInfo, Error>)
        requires
            old(r).wf(),
        ensures
            final(r).bytes() == old(r).bytes(),
            final(r).wf(),
            old(r).position() <= final(r).position(),
            match spec_read_integer_info(old(r).bytes(), old(r).position()) {
                Ok(v) => res matches Ok(c) && c == v.0 && final(r).position() == v.1,
                Err(e) => res matches Err(e2) && e2 == e,
            },
    {
        let value = match r.read_i32() {
            Ok(v) => v,
            Err(e) => { return Err(e); },
        };
        Ok(ConstantIntegerInfo { value })
    }

    pub fn get_value(&self) -> (v: i32)
        ensures
            v == self.value,
    {
        self.value
    }
}

impl ConstantFloatInfo {
    pub fn read(r: &mut Reader) -> (res: Result<ConstantFloatInfo, Error>)
        requires
            old(r).wf(),
        ensures
            final(r).bytes() == old(r).bytes(),
            final(r).wf(),
            old(r).position() <= final(r).position(),
            match spec_read_float_info(old(r).bytes(), old(r).position()) {
                Ok(v) => res matches Ok(c) && c == v.0 && final(r).position() == v.1,
                Err(e) => res matches Err(e2) && e2 == e,
            },
    {
        let bits = match r.read_u32() {
            Ok(v) => v,
            Err(e) => { return Err(e); },
        };
        Ok(ConstantFloatInfo { bits })
    }

    /// The raw big-endian bit pattern of the value.
    pub fn get_bits(&self) -> (v: u32)
        ensures
            v == self.bits,
    {
        self.bits
    }
}

impl ConstantLongInfo {
    pub fn read(r: &mut Reader) -> (res: Result<ConstantLongInfo, Error>)
        requires
            old(r).wf(),
        ensures
            final(r).bytes() == old(r).bytes(),
            final(r).wf(),
            old(r).position() <= final(r).position(),
            match spec_read_long_info(old(r).bytes(), old(r).position()) {
                Ok(v) => res matches Ok(c) && c == v.0 && final(r).position() == v.1,
                Err(e) => res matches Err(e2) && e2 == e,
            },
    {
        let value = match r.read_i64() {
            Ok(v) => v,
            Err(e) => { return Err(e); },
        };
        Ok(ConstantLongInfo { value })
    }

    pub fn get_value(&self) -> (v: i64)
        ensures
            v == self.value,
    {
        self.value
    }
}

impl ConstantDoubleInfo {
    pub fn read(r: &mut Reader) -> (res: Result<ConstantDoubleInfo, Error>)
        requires
            old(r).wf(),
        ensures
            final(r).bytes() == old(r).bytes(),
            final(r).wf(),
            old(r).position() <= final(r).position(),
            match spec_read_double_info(old(r).bytes(), old(r).position()) {
                Ok(v) => res matches Ok(c) && c == v.0 && final(r).position() == v.1,
                Err(e) => res matches Err(e2) && e2 == e,
            },
    {
        let bits = match r.read_u64() {
            Ok(v) => v,
            Err(e) => { return Err(e); },
        };
        Ok(ConstantDoubleInfo { bits })
    }

    /// The raw big-endian bit pattern of the value.
    pub fn get_bits(&self) -> (v: u64)
        ensures
            v == self.bits,
    {
        self.bits
    }
}

impl ConstantNameAndTypeInfo {
    pub fn read(r: &mut Reader) -> (res: Result<ConstantNameAndTypeInfo, Error>)
        requires
            old(r).wf(),
        ensures
            final(r).bytes() == old(r).bytes(),
            final(r).wf(),
            old(r).position() <= final(r).position(),
            match spec_read_name_and_type_info(old(r).bytes(), old(r).position()) {
                Ok(v) => res matches Ok(c) && c == v.0 && final(r).position() == v.1,
                Err(e) => res matches Err(e2) && e2 == e,
            },
    {
        let name_index = match r.read_u16() {
            Ok(v) => v,
            Err(e) => { return Err(e); },
        };
        let descriptor_index = match r.read_u16() {
            Ok(v) => v,
            Err(e) => { return Err(e); },
        };
        Ok(
            ConstantNameAndTypeInfo {
                name_index: name_index as usize,
                descriptor_index: descriptor_index as usize,
            },
        )
    }

    /// The name, resolved through the pool.
    pub fn get_name<'a>(&self, pool: &'a ConstantPool) -> (r: Option<&'a str>)
        ensures
            match r {
                Some(s) => pool_get_str(pool@, self.name_index as int) == Some(s@),
                None => pool_get_str(pool@, self.name_index as int) is None,
            },
    {
        pool.get_str(self.name_index)
    }

    /// The descriptor, resolved through the pool.
    pub fn get_descriptor<'a>(&self, pool: &'a ConstantPool) -> (r: Option<&'a str>)
        ensures
            match r {
                Some(s) => pool_get_str(pool@, self.descriptor_index as int) == Some(s@),
                None => pool_get_str(pool@, self.descriptor_index as int) is None,
            },
    {
        pool.get_str(self.descriptor_index)
    }
}

impl ConstantUtf8Info {
    pub fn read(r: &mut Reader) -> (res: Result<ConstantUtf8Info, Error>)
        requires
            old(r).wf(),
        ensures
            final(r).bytes() == old(r).bytes(),
            final(r).wf(),
            old(r).position() <= final(r).position(),
            match spec_read_utf8(old(r).bytes(), old(r).position()) {
                Ok(v) => res matches Ok(c) && c.value@ == v.0 && final(r).position() == v.1,
                Err(e) => res matches Err(e2) && e2 == e,
            },
    {
        let length = match r.read_u16() {
            Ok(v) => v,
            Err(e) => { return Err(e); },
        };
        let data = match r.read_exact(length as usize) {
            Ok(v) => v,
            Err(e) => { return Err(e); },
        };
        match string_from_utf8(data) {
            Some(value) => Ok(ConstantUtf8Info { value }),
            None => Err(Error::Utf8DecodeError),
        }
    }

    pub fn get_value(&self) -> (s: &str)
        ensures
            s@ == self.value@,
    {
        self.value.as_str()
    }
}

impl ConstantMethodHandleInfo {
    pub fn read(r: &mut Reader) -> (res: Result<ConstantMethodHandleInfo, Error>)
        requires
            old(r).wf(),
        ensures
            final(r).bytes() == old(r).bytes(),
            final(r).wf(),
            old(r).position() <= final(r).position(),
            match spec_read_method_handle_info(old(r).bytes(), old(r).position()) {
                Ok(v) => res matches Ok(c) && c == v.0 && final(r).position() == v.1,
                Err(e) => res matches Err(e2) && e2 == e,
            },
    {
        let ref_kind = match r.read_u8() {
            Ok(v) => v,
            Err(e) => { return Err(e); },
        };
        let ref_index = match r.read_u16() {
            Ok(v) => v,
            Err(e) => { return Err(e); },
        };
        Ok(ConstantMethodHandleInfo { ref_kind, ref_index: ref_index as usize })
    }

    pub fn get_ref_kind(&self) -> (v: u8)
        ensures
            v == self.ref_kind,
    {
        self.ref_kind
    }

    /// The referenced entry, whatever its kind.
    pub fn get_ref<'a>(&self, pool: &'a ConstantPool) -> (r: Option<&'a ConstantPoolEntry>)
        ensures
            match r {
                Some(e) => pool_get(pool@, self.ref_index as int) == Some(e@),
                None => pool_get(pool@, self.ref_index as int) is None,
            },
    {
        pool.get(self.ref_index)
    }
}

impl ConstantMethodTypeInfo {
    pub fn read(r: &mut Reader) -> (res: Result<ConstantMethodTypeInfo, Error>)
        requires
            old(r).wf(),
        ensures
            final(r).bytes() == old(r).bytes(),
            final(r).wf(),
            old(r).position() <= final(r).position(),
            match spec_read_method_type_info(old(r).bytes(), old(r).position()) {
                Ok(v) => res matches Ok(c) && c == v.0 && final(r).position() == v.1,
                Err(e) => res matches Err(e2) && e2 == e,
            },
    {
        let desc_index = match r.read_u16() {
            Ok(v) => v,
            Err(e) => { return Err(e); },
        };
        Ok(ConstantMethodTypeInfo { desc_index: desc_index as usize })
    }

    /// The descriptor, resolved through the pool.
    pub fn get_desc<'a>(&self, pool: &'a ConstantPool) -> (r: Option<&'a str>)
        ensures
            match r {
                Some(s) => pool_get_str(pool@, self.desc_index as int) == Some(s@),
                None => pool_get_str(pool@, self.desc_index as int) is None,
            },
    {
        pool.get_str(self.desc_index)
    }
}

impl ConstantInvokedDynamicInfo {
    pub fn read(r: &mut Reader) -> (res: Result<ConstantInvokedDynamicInfo, Error>)
        requires
            old(r).wf(),
        ensures
            final(r).bytes() == old(r).bytes(),
            final(r).wf(),
            old(r).position() <= final(r).position(),
            match spec_read_invoked_dynamic_info(old(r).bytes(), old(r).position()) {
                Ok(v) => res matches Ok(c) && c == v.0 && final(r).position() == v.1,
                Err(e) => res matches Err(e2) && e2 == e,
            },
    {
        let bootstrap_method_attr_index = match r.read_u16() {
            Ok(v) => v,
            Err(e) => { return Err(e); },
        };
        let name_and_type_index = match r.read_u16() {
            Ok(v) => v,
            Err(e) => { return Err(e); },
        };
        Ok(
            ConstantInvokedDynamicInfo {
                bootstrap_method_attr_index: bootstrap_method_attr_index as usize,
                name_and_type_index: name_and_type_index as usize,
            },
        )
    }

    /// The referenced bootstrap-method entry, whatever its kind.
    pub fn get_bootstrap_method_attr<'a>(&self, pool: &'a ConstantPool) -> (r: Option<
        &'a ConstantPoolEntry,
    >)
        ensures
            match r {
                Some(e) => pool_get(pool@, self.bootstrap_method_attr_index as int) == Some(e@),
                None => pool_get(pool@, self.bootstrap_method_attr_index as int) is None,
            },
    {
        pool.get(self.bootstrap_method_attr_index)
    }

    /// The referenced name-and-type entry, resolved through the pool.
    pub fn get_name_and_type<'a>(&self, pool: &'a ConstantPool) -> (r: Option<
        &'a ConstantNameAndTypeInfo,
    >)
        ensures
            match r {
                Some(i) => pool_get(pool@, self.name_and_type_index as int) == Some(
                    SpecEntry::NameAndType(*i),
                ),
                None => !(pool_get(pool@, self.name_and_type_index as int) matches Some(
                    SpecEntry::NameAndType(_),
                )),
            },
    {
        match pool.get(self.name_and_type_index) {
            Some(entry) => match entry {
                ConstantPoolEntry::NameAndType(info) => Some(info),
                _ => None,
            },
            None => None,
        }
    }
}

impl ConstantPoolEntry {
    /// Reads one tagged entry; an unrecognized tag byte is a hard
    /// `BadTagValue` error carrying the byte.
    pub fn read(r: &mut Reader) -> (res: Result<ConstantPoolEntry, Error>)
        requires
            old(r).wf(),
        ensures
            final(r).bytes() == old(r).bytes(),
            final(r).wf(),
            old(r).position() <= final(r).position(),
            match spec_read_entry(old(r).bytes(), old(r).position()) {
                Ok(v) => res matches Ok(e) && e@ == v.0 && final(r).position() == v.1,
                Err(e) => res matches Err(e2) && e2 == e,
            },
    {
        let tag = match r.read_u8() {
            Ok(v) => v,
            Err(e) => { return Err(e); },
        };
        if tag == CONSTANT_CLASS {
            match ConstantClassInfo::read(r) {
                Ok(i) => Ok(ConstantPoolEntry::Class(i)),
                Err(e) => Err(e),
            }
        } else if tag == CONSTANT_FIELDREF {
            match ConstantFieldRefInfo::read(r) {
                Ok(i) => Ok(ConstantPoolEntry::FieldRef(i)),
                Err(e) => Err(e),
            }
        } else if tag == CONSTANT_METHODREF {
            match ConstantMethodRefInfo::read(r) {
                Ok(i) => Ok(ConstantPoolEntry::MethodRef(i)),
                Err(e) => Err(e),
            }
        } else if tag == CONSTANT_INTERFACEMETHODREF {
            match ConstantInterfaceMethodRefInfo::read(r) {
                Ok(i) => Ok(ConstantPoolEntry::InterfaceMethodRef(i)),
                Err(e) => Err(e),
            }
        } else if tag == CONSTANT_STRING {
            match ConstantStringInfo::read(r) {
                Ok(i) => Ok(ConstantPoolEntry::String(i)),
                Err(e) => Err(e),
            }
        } else if tag == CONSTANT_INTEGER {
            match ConstantIntegerInfo::read(r) {
                Ok(i) => Ok(ConstantPoolEntry::Integer(i)),
                Err(e) => Err(e),
            }
        } else if tag == CONSTANT_FLOAT {
            match ConstantFloatInfo::read(r) {
                Ok(i) => Ok(ConstantPoolEntry::Float(i)),
                Err(e) => Err(e),
            }
        } else if tag == CONSTANT_LONG {
            match ConstantLongInfo::read(r) {
                Ok(i) => Ok(ConstantPoolEntry::Long(i)),
                Err(e) => Err(e),
            }
        } else if tag == CONSTANT_DOUBLE {
            match ConstantDoubleInfo::read(r) {
                Ok(i) => Ok(ConstantPoolEntry::Double(i)),
                Err(e) => Err(e),
            }
        } else if tag == CONSTANT_NAMEANDTYPE {
            match ConstantNameAndTypeInfo::read(r) {
                Ok(i) => Ok(ConstantPoolEntry::NameAndType(i)),
                Err(e) => Err(e),
            }
        } else if tag == CONSTANT_UTF8 {
            match ConstantUtf8Info::read(r) {
                Ok(i) => Ok(ConstantPoolEntry::Utf8(i)),
                Err(e) => Err(e),
            }
        } else if tag == CONSTANT_METHODHANDLE {
            match ConstantMethodHandleInfo::read(r) {
                Ok(i) => Ok(ConstantPoolEntry::MethodHandle(i)),
                Err(e) => Err(e),
            }
        } else if tag == CONSTANT_METHODTYPE {
            match ConstantMethodTypeInfo::read(r) {
                Ok(i) => Ok(ConstantPoolEntry::MethodType(i)),
                Err(e) => Err(e),
            }
        } else if tag == CONSTANT_INVOKEDYNAMIC {
            match ConstantInvokedDynamicInfo::read(r) {
                Ok(i) => Ok(ConstantPoolEntry::InvokedDynamic(i)),
                Err(e) => Err(e),
            }
        } else {
            Err(Error::BadTagValue(tag))
        }
    }

    /// How many logical index slots this entry consumes.
    pub fn width(&self) -> (w: usize)
        ensures
            w == entry_width(self@),
    {
        match self {
            ConstantPoolEntry::Long(_) => 2,
            ConstantPoolEntry::Double(_) => 2,
            _ => 1,
        }
    }
}

/// The constant pool, built once at load time and immutable thereafter.
#[derive(Debug, Clone, PartialEq, Eq)]
pub struct ConstantPool {
    entries: Vec<ConstantPoolEntry>,
}

impl View for ConstantPool {
    type V = Seq<SpecEntry>;

    closed spec fn view(&self) -> Seq<SpecEntry> {
        entries_view(self.entries@)
    }
}

impl ConstantPool {
    /// Reads the pool: a 16-bit count, then entries until the count is
    /// reached, a `Long` or `Double` advancing the logical index by two.
    #[verifier::loop_isolation(false)]
    pub fn read(r: &mut Reader) -> (res: Result<ConstantPool, Error>)
        requires
            old(r).wf(),
        ensures
            final(r).bytes() == old(r).bytes(),
            final(r).wf(),
            old(r).position() <= final(r).position(),
            match spec_read_pool(old(r).bytes(), old(r).position()) {
                Ok(v) => res matches Ok(p) && p@ == v.0 && final(r).position() == v.1,
                Err(e) => res matches Err(e2) && e2 == e,
            },
    {
        let ghost s = old(r).bytes();
        let ghost pos0 = old(r).position();
        let entries_count = match r.read_u16() {
            Ok(v) => v,
            Err(e) => { return Err(e); },
        };
        let mut entries: Vec<ConstantPoolEntry> = Vec::new();
        let mut index: usize = 1;
        proof {
            assert(entries_view(entries@) =~= Seq::<SpecEntry>::empty());
            assert(Seq::<SpecEntry>::empty() + Seq::<SpecEntry>::empty()
                =~= Seq::<SpecEntry>::empty());
        }
        while index < entries_count as usize
            invariant
                r.wf(),
                r.bytes() == s,
                can_read(s, pos0, 2),
                entries_count == be_u16_at(s, pos0),
                1 <= index <= entries_count as int + 1,
                pos0 + 2 <= r.position(),
                match spec_read_pool_entries(s, r.position(), entries_count as int - index) {
                    Ok(v) => spec_read_pool_entries(s, pos0 + 2, entries_count as int - 1)
                        == Ok::<_, Error>((entries_view(entries@) + v.0, v.1)),
                    Err(e) => spec_read_pool_entries(s, pos0 + 2, entries_count as int - 1)
                        == Err::<(Seq<SpecEntry>, int), _>(e),
                },
            decreases entries_count as int + 1 - index,
        {
            let ghost p_before = r.position();
            let ghost slots = entries_count as int - index;
            let entry = match ConstantPoolEntry::read(r) {
                Ok(e) => e,
                Err(e) => {
                    proof {
                        assert(spec_read_pool_entries(s, p_before, slots) == Err::<
                            (Seq<SpecEntry>, int),
                            _,
                        >(e));
                    }
                    return Err(e);
                },
            };
            let w = entry.width();
            proof {
                assert(1 <= entry_width(entry@) <= 2);
                let m = entry@;
                let p_now = r.position();
                assert(spec_read_entry(s, p_before) == Ok::<_, Error>((m, p_now)));
                let rest_slots = slots - entry_width(m);
                let clamped = if rest_slots < 0 { 0 } else { rest_slots };
                // a negative slot budget and a zero budget read the same way
                assert(spec_read_pool_entries(s, p_now, clamped) == spec_read_pool_entries(
                    s,
                    p_now,
                    slots - entry_width(m),
                ));
                match spec_read_pool_entries(s, p_now, slots - entry_width(m)) {
                    Ok(v) => {
                        assert(spec_read_pool_entries(s, p_before, slots) == Ok::<_, Error>(
                            (seq![m] + v.0, v.1),
                        ));
                        assert(entries_view(entries@.push(entry)) =~= entries_view(entries@)
                            + seq![m]);
                        assert((entries_view(entries@) + seq![m]) + v.0 =~= entries_view(entries@)
                            + (seq![m] + v.0));
                    },
                    Err(_) => {},
                }
            }
            entries.push(entry);
            index = index + w;
        }
        proof {
            assert(spec_read_pool_entries(s, r.position(), entries_count as int - index)
                == Ok::<_, Error>((Seq::<SpecEntry>::empty(), r.position())));
            assert(entries_view(entries@) + Seq::<SpecEntry>::empty() =~= entries_view(entries@));
        }
        Ok(ConstantPool { entries })
    }

    /// Lookup by 1-based logical index. Index 0 is reserved and always
    /// absent; a slot swallowed by a `Long` or `Double` is absent; an
    /// index past the table is absent.
    pub fn get(&self, index: usize) -> (r: Option<&ConstantPoolEntry>)
        ensures
            match r {
                Some(e) => pool_get(self@, index as int) == Some(e@),
                None => pool_get(self@, index as int) is None,
            },
    {
        if index == 0 {
            return None;
        }
        let mut off: usize = index - 1;
        let mut i: usize = 0;
        proof {
            assert(self@.skip(0) =~= self@);
        }
        while i < self.entries.len()
            invariant
                i <= self.entries@.len(),
                self@ == entries_view(self.entries@),
                pool_get_offset(self@.skip(i as int), off as int) == pool_get(
                    self@,
                    index as int,
                ),
            decreases self.entries@.len() - i,
        {
            proof {
                assert(self@.skip(i as int)[0] == self@[i as int]);
            }
            let e = &self.entries[i];
            let w = e.width();
            if off == 0 {
                return Some(e);
            }
            if off < w {
                return None;
            }
            proof {
                assert(self@.skip(i as int).drop_first() =~= self@.skip(i as int + 1));
            }
            off = off - w;
            i = i + 1;
        }
        None
    }

    /// Lookup that succeeds only on a `Utf8` entry, yielding its text.
    pub fn get_str(&self, index: usize) -> (r: Option<&str>)
        ensures
            match r {
                Some(s) => pool_get_str(self@, index as int) == Some(s@),
                None => pool_get_str(self@, index as int) is None,
            },
    {
        match self.get(index) {
            Some(entry) => match entry {
                ConstantPoolEntry::Utf8(info) => Some(info.value.as_str()),
                _ => None,
            },
            None => None,
        }
    }

    /// Lookup that succeeds only on a `Class` entry.
    pub fn get_class_info(&self, index: usize) -> (r: Option<&ConstantClassInfo>)
        ensures
            match r {
                Some(c) => pool_get_class_info(self@, index as int) == Some(*c),
                None => pool_get_class_info(self@, index as int) is None,
            },
    {
        match self.get(index) {
            Some(entry) => match entry {
                ConstantPoolEntry::Class(info) => Some(info),
                _ => None,
            },
            None => None,
        }
    }
}

} // verus!
