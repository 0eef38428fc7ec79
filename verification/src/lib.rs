//! A decoder for the Java class-file binary format.
//!
//! The decoder turns a byte stream into a validated, navigable tree:
//! the constant pool, the class/field/method structure, and the attribute
//! sub-language (code bodies, stack map frames, annotations, and so on).
//! It is a format reader, not an executor: bytecode is kept as opaque bytes.
//!
//! Every structure is read by a pure function from a byte-source position to
//! a value and a new position, or to a terminal error; the contract of each
//! executable decoder pins its result to a specification-level parser over
//! the underlying byte sequence, so decoding the same bytes always yields
//! the same tree.

pub mod attr;
pub mod constant;
pub mod error;
pub mod field;
pub mod flags;
pub mod method;
pub mod reader;
pub mod text;
pub mod version;

use vstd::prelude::*;

use crate::attr::{attrs_view, read_attrs, spec_read_attrs, Attr, SpecAttr};
use crate::constant::{
    pool_get_class_info, spec_read_pool, ConstantClassInfo, ConstantPool, SpecEntry,
};
use crate::error::Error;
use crate::field::{
    field_infos_view, lemma_field_infos_view_push, spec_read_field_infos, FieldInfo,
    SpecFieldInfo,
};
use crate::flags::{ClassAccessFlags, CLASS_FLAGS_MASK};
use crate::method::{
    lemma_method_infos_view_push, method_infos_view, spec_read_method_infos, MethodInfo,
    SpecMethodInfo,
};
use crate::reader::{be_u16_at, be_u32_at, can_read, Reader};
use crate::version::Version;

verus! {

/// The four bytes every class file must begin with.
pub const MAGIC_VALUE: u32 = 0xCAFEBABE;

/// A fully decoded class file, built once from a byte stream and
/// read-only thereafter.
#[derive(Debug, PartialEq, Eq)]
pub struct ClassFile {
    pub version: Version,
    pub constant_pool: ConstantPool,
    pub access_flags: ClassAccessFlags,
    this_class: usize,
    super_class: usize,
    interfaces: Vec<usize>,
    pub fields: Vec<FieldInfo>,
    pub methods: Vec<MethodInfo>,
    pub attrs: Vec<Attr>,
}

/// The mathematical model of a decoded class file.
pub struct SpecClassFile {
    pub version: Version,
    pub constant_pool: Seq<SpecEntry>,
    pub access_flags: ClassAccessFlags,
    pub this_class: usize,
    pub super_class: usize,
    pub interfaces: Seq<usize>,
    pub fields: Seq<SpecFieldInfo>,
    pub methods: Seq<SpecMethodInfo>,
    pub attrs: Seq<SpecAttr>,
}

impl View for ClassFile {
    type V = SpecClassFile;

    closed spec fn view(&self) -> SpecClassFile {
        SpecClassFile {
            version: self.version,
            constant_pool: self.constant_pool@,
            access_flags: self.access_flags,
            this_class: self.this_class,
            super_class: self.super_class,
            interfaces: self.interfaces@,
            fields: field_infos_view(self.fields@),
            methods: method_infos_view(self.methods@),
            attrs: attrs_view(self.attrs@),
        }
    }
}

/// Reads `n` interface indices in sequence.
pub open spec fn spec_read_interfaces(s: Seq<u8>, pos: int, n: int) -> Result<
    (Seq<usize>, int),
    Error,
>
    decreases n,
{
    if n <= 0 {
        Ok((Seq::empty(), pos))
    } else {
        if !can_read(s, pos, 2) {
            Err(Error::Truncation)
        } else {
            match spec_read_interfaces(s, pos + 2, n - 1) {
                Err(e) => Err(e),
                Ok(w) => Ok((seq![be_u16_at(s, pos) as usize] + w.0, w.1)),
            }
        }
    }
}

/// Reads a whole class file: the magic, the version pair, the constant
/// pool, the class access flags, this/super indices, the interface
/// list, the fields, the methods, and the class-level attributes, in
/// that order, consumed strictly left to right.
pub open spec fn spec_read_class_file(s: Seq<u8>, pos: int) -> Result<(SpecClassFile, int), Error> {
    if !can_read(s, pos, 4) {
        Err(Error::Truncation)
    } else if be_u32_at(s, pos) != MAGIC_VALUE {
        Err(Error::BadMagicValue(be_u32_at(s, pos)))
    } else if !can_read(s, pos + 4, 4) {
        Err(Error::Truncation)
    } else {
        match spec_read_pool(s, pos + 8) {
            Err(e) => Err(e),
            Ok(cp) => spec_read_class_file_body(s, pos, cp.0, cp.1),
        }
    }
}

/// Reads what follows the constant pool: flags, indices, interfaces,
/// fields, methods, and attributes.
pub open spec fn spec_read_class_file_body(
    s: Seq<u8>,
    pos: int,
    pool: Seq<SpecEntry>,
    p: int,
) -> Result<(SpecClassFile, int), Error> {
    if !can_read(s, p, 2) {
        Err(Error::Truncation)
    } else {
        let bits = be_u16_at(s, p);
        if bits & CLASS_FLAGS_MASK != bits {
            Err(Error::BadAccessFlags(bits))
        } else if !can_read(s, p + 2, 6) {
            Err(Error::Truncation)
        } else {
            match spec_read_interfaces(s, p + 8, be_u16_at(s, p + 6) as int) {
                Err(e) => Err(e),
                Ok(ifs) => {
                    if !can_read(s, ifs.1, 2) {
                        Err(Error::Truncation)
                    } else {
                        match spec_read_field_infos(s, ifs.1 + 2, be_u16_at(s, ifs.1) as int,
                            pool) {
                            Err(e) => Err(e),
                            Ok(fs) => {
                                if !can_read(s, fs.1, 2) {
                                    Err(Error::Truncation)
                                } else {
                                    match spec_read_method_infos(
                                        s,
                                        fs.1 + 2,
                                        be_u16_at(s, fs.1) as int,
                                        pool,
                                    ) {
                                        Err(e) => Err(e),
                                        Ok(ms) => {
                                            if !can_read(s, ms.1, 2) {
                                                Err(Error::Truncation)
                                            } else {
                                                match spec_read_attrs(
                                                    s,
                                                    ms.1 + 2,
                                                    be_u16_at(s, ms.1) as int,
                                                    pool,
                                                ) {
                                                    Err(e) => Err(e),
                                                    Ok(at) => Ok(
                                                        (
                                                            SpecClassFile {
                                                                version: Version {
                                                                    major: be_u16_at(s, pos + 6),
                                                                    minor: be_u16_at(s, pos + 4),
                                                                },
                                                                constant_pool: pool,
                                                                access_flags: ClassAccessFlags {
                                                                    bits,
                                                                },
                                                                this_class: be_u16_at(s, p + 2)
                                                                    as usize,
                                                                super_class: be_u16_at(s, p + 4)
                                                                    as usize,
                                                                interfaces: ifs.0,
                                                                fields: fs.0,
                                                                methods: ms.0,
                                                                attrs: at.0,
                                                            },
                                                            at.1,
                                                        ),
                                                    ),
                                                }
                                            }
                                        },
                                    }
                                }
                            },
                        }
                    }
                },
            }
        }
    }
}

impl ClassFile {
    /// Reads a whole class file from the byte source. The result is
    /// pinned to `spec_read_class_file` of the underlying bytes, so
    /// decoding the same bytes twice yields structurally equal trees;
    /// a wrong magic value is rejected, carrying the value found,
    /// before any further field is read.
    #[verifier::loop_isolation(false)]
    pub fn read(r: &mut Reader) -> (res: Result<ClassFile, Error>)
        requires
            old(r).wf(),
        ensures
            final(r).bytes() == old(r).bytes(),
            final(r).wf(),
            old(r).position() <= final(r).position(),
            match spec_read_class_file(old(r).bytes(), old(r).position()) {
                Ok(v) => res matches Ok(cf) && cf@ == v.0 && final(r).position() == v.1,
                Err(e) => res matches Err(e2) && e2 == e,
            },
    {
        let ghost s = old(r).bytes();
        let magic = match r.read_u32() {
            Ok(v) => v,
            Err(e) => { return Err(e); },
        };
        if magic != MAGIC_VALUE {
            return Err(Error::BadMagicValue(magic));
        }
        let minor = match r.read_u16() {
            Ok(v) => v,
            Err(e) => { return Err(e); },
        };
        let major = match r.read_u16() {
            Ok(v) => v,
            Err(e) => { return Err(e); },
        };
        let constant_pool = match ConstantPool::read(r) {
            Ok(v) => v,
            Err(e) => { return Err(e); },
        };
        let bits = match r.read_u16() {
            Ok(v) => v,
            Err(e) => { return Err(e); },
        };
        let access_flags = match ClassAccessFlags::from_bits(bits) {
            Some(flags) => flags,
            None => { return Err(Error::BadAccessFlags(bits)); },
        };
        let this_class = match r.read_u16() {
            Ok(v) => v,
            Err(e) => { return Err(e); },
        };
        let super_class = match r.read_u16() {
            Ok(v) => v,
            Err(e) => { return Err(e); },
        };
        let interfaces_count = match r.read_u16() {
            Ok(v) => v,
            Err(e) => { return Err(e); },
        };
        let ghost p_ifs = r.position();
        let mut interfaces: Vec<usize> = Vec::new();
        let mut i: usize = 0;
        while i < interfaces_count as usize
            invariant
                r.wf(),
                r.bytes() == s,
                i <= interfaces_count as usize,
                p_ifs <= r.position(),
                match spec_read_interfaces(s, r.position(), interfaces_count as int - i) {
                    Ok(v) => spec_read_interfaces(s, p_ifs, interfaces_count as int) == Ok::<
                        _,
                        Error,
                    >((interfaces@ + v.0, v.1)),
                    Err(e) => spec_read_interfaces(s, p_ifs, interfaces_count as int) == Err::<
                        (Seq<usize>, int),
                        _,
                    >(e),
                },
            decreases interfaces_count as int - i,
        {
            let ghost p_before = r.position();
            let interface_index = match r.read_u16() {
                Ok(v) => v,
                Err(e) => { return Err(e); },
            };
            proof {
                match spec_read_interfaces(s, r.position(), interfaces_count as int - i - 1) {
                    Ok(v) => {
                        assert(spec_read_interfaces(s, p_before, interfaces_count as int - i)
                            == Ok::<_, Error>((seq![interface_index as usize] + v.0, v.1)));
                        assert(interfaces@.push(interface_index as usize) + v.0 =~= interfaces@ + (
                        seq![interface_index as usize] + v.0));
                    },
                    Err(_) => {},
                }
            }
            interfaces.push(interface_index as usize);
            i = i + 1;
        }
        proof {
            assert(interfaces@ + Seq::<usize>::empty() =~= interfaces@);
        }
        let fields_count = match r.read_u16() {
            Ok(v) => v,
            Err(e) => { return Err(e); },
        };
        let ghost p_fs = r.position();
        let mut fields: Vec<FieldInfo> = Vec::new();
        let mut i: usize = 0;
        while i < fields_count as usize
            invariant
                r.wf(),
                r.bytes() == s,
                i <= fields_count as usize,
                p_fs <= r.position(),
                match spec_read_field_infos(
                    s,
                    r.position(),
                    fields_count as int - i,
                    constant_pool@,
                ) {
                    Ok(v) => spec_read_field_infos(s, p_fs, fields_count as int, constant_pool@)
                        == Ok::<_, Error>((field_infos_view(fields@) + v.0, v.1)),
                    Err(e) => spec_read_field_infos(s, p_fs, fields_count as int, constant_pool@)
                        == Err::<(Seq<SpecFieldInfo>, int), _>(e),
                },
            decreases fields_count as int - i,
        {
            let ghost p_before = r.position();
            let field = match FieldInfo::read(r, &constant_pool) {
                Ok(v) => v,
                Err(e) => { return Err(e); },
            };
            proof {
                match spec_read_field_infos(
                    s,
                    r.position(),
                    fields_count as int - i - 1,
                    constant_pool@,
                ) {
                    Ok(v) => {
                        assert(spec_read_field_infos(
                            s,
                            p_before,
                            fields_count as int - i,
                            constant_pool@,
                        ) == Ok::<_, Error>((seq![field@] + v.0, v.1)));
                        lemma_field_infos_view_push(fields@, field);
                        assert(field_infos_view(fields@).push(field@) + v.0 =~= field_infos_view(
                            fields@,
                        ) + (seq![field@] + v.0));
                    },
                    Err(_) => {},
                }
            }
            fields.push(field);
            i = i + 1;
        }
        proof {
            assert(field_infos_view(fields@) + Seq::<SpecFieldInfo>::empty() =~= field_infos_view(
                fields@,
            ));
        }
        let methods_count = match r.read_u16() {
            Ok(v) => v,
            Err(e) => { return Err(e); },
        };
        let ghost p_ms = r.position();
        let mut methods: Vec<MethodInfo> = Vec::new();
        let mut i: usize = 0;
        while i < methods_count as usize
            invariant
                r.wf(),
                r.bytes() == s,
                i <= methods_count as usize,
                p_ms <= r.position(),
                match spec_read_method_infos(
                    s,
                    r.position(),
                    methods_count as int - i,
                    constant_pool@,
                ) {
                    Ok(v) => spec_read_method_infos(s, p_ms, methods_count as int, constant_pool@)
                        == Ok::<_, Error>((method_infos_view(methods@) + v.0, v.1)),
                    Err(e) => spec_read_method_infos(
                        s,
                        p_ms,
                        methods_count as int,
                        constant_pool@,
                    ) == Err::<(Seq<SpecMethodInfo>, int), _>(e),
                },
            decreases methods_count as int - i,
        {
            let ghost p_before = r.position();
            let method = match MethodInfo::read(r, &constant_pool) {
                Ok(v) => v,
                Err(e) => { return Err(e); },
            };
            proof {
                match spec_read_method_infos(
                    s,
                    r.position(),
                    methods_count as int - i - 1,
                    constant_pool@,
                ) {
                    Ok(v) => {
                        assert(spec_read_method_infos(
                            s,
                            p_before,
                            methods_count as int - i,
                            constant_pool@,
                        ) == Ok::<_, Error>((seq![method@] + v.0, v.1)));
                        lemma_method_infos_view_push(methods@, method);
                        assert(method_infos_view(methods@).push(method@) + v.0
                            =~= method_infos_view(methods@) + (seq![method@] + v.0));
                    },
                    Err(_) => {},
                }
            }
            methods.push(method);
            i = i + 1;
        }
        proof {
            assert(method_infos_view(methods@) + Seq::<SpecMethodInfo>::empty()
                =~= method_infos_view(methods@));
        }
        let attrs_count = match r.read_u16() {
            Ok(v) => v,
            Err(e) => { return Err(e); },
        };
        let mut attrs: Vec<Attr> = Vec::new();
        match read_attrs(r, attrs_count, &constant_pool, &mut attrs) {
            Ok(()) => {
                proof {
                    assert(attrs_view(Seq::<Attr>::empty()) + attrs_view(attrs@) =~= attrs_view(
                        attrs@,
                    ));
                }
                Ok(
                    ClassFile {
                        version: Version::new(major, minor),
                        constant_pool,
                        access_flags,
                        this_class: this_class as usize,
                        super_class: super_class as usize,
                        interfaces,
                        fields,
                        methods,
                        attrs,
                    },
                )
            },
            Err(e) => Err(e),
        }
    }

    /// The class itself, resolved through the pool.
    pub fn this_class(&self) -> (r: Option<&ConstantClassInfo>)
        ensures
            match r {
                Some(c) => pool_get_class_info(self@.constant_pool, self@.this_class as int)
                    == Some(*c),
                None => pool_get_class_info(self@.constant_pool, self@.this_class as int)
                    is None,
            },
    {
        self.constant_pool.get_class_info(self.this_class)
    }

    /// The superclass, resolved through the pool; an index of zero
    /// (only `java/lang/Object` has one) is exposed as absent.
    pub fn super_class(&self) -> (r: Option<&ConstantClassInfo>)
        ensures
            match r {
                Some(c) => pool_get_class_info(self@.constant_pool, self@.super_class as int)
                    == Some(*c),
                None => pool_get_class_info(self@.constant_pool, self@.super_class as int)
                    is None,
            },
    {
        self.constant_pool.get_class_info(self.super_class)
    }

    /// The direct-interface indices, in file order; each resolves
    /// through the pool on demand.
    pub fn interfaces(&self) -> (r: &Vec<usize>)
        ensures
            r@ == self@.interfaces,
    {
        &self.interfaces
    }
}

} // verus!
