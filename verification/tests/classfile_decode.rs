//! Whole-file decoding: the magic gate, the flags gate, determinism,
//! and the minimal end-to-end class.

use classfile::error::Error;
use classfile::flags::{ACC_PUBLIC, ACC_SUPER};
use classfile::reader::Reader;
use classfile::ClassFile;

fn push_u16(out: &mut Vec<u8>, v: u16) {
    out.extend_from_slice(&v.to_be_bytes());
}

fn push_u32(out: &mut Vec<u8>, v: u32) {
    out.extend_from_slice(&v.to_be_bytes());
}

/// A minimal class `Foo extends java/lang/Object` with empty interface,
/// field, method, and attribute lists.
fn minimal_class() -> Vec<u8> {
    let mut b = Vec::new();
    push_u32(&mut b, 0xCAFEBABE);
    push_u16(&mut b, 0); // minor
    push_u16(&mut b, 52); // major
    push_u16(&mut b, 5); // pool count
    b.push(7); // 1: Class -> 2
    push_u16(&mut b, 2);
    b.push(1); // 2: Utf8 "Foo"
    push_u16(&mut b, 3);
    b.extend_from_slice(b"Foo");
    b.push(7); // 3: Class -> 4
    push_u16(&mut b, 4);
    b.push(1); // 4: Utf8 "java/lang/Object"
    push_u16(&mut b, 16);
    b.extend_from_slice(b"java/lang/Object");
    push_u16(&mut b, ACC_PUBLIC | ACC_SUPER);
    push_u16(&mut b, 1); // this_class
    push_u16(&mut b, 3); // super_class
    push_u16(&mut b, 0); // interfaces
    push_u16(&mut b, 0); // fields
    push_u16(&mut b, 0); // methods
    push_u16(&mut b, 0); // attrs
    b
}

#[test]
fn minimal_class_decodes_end_to_end() {
    let b = minimal_class();
    let mut r = Reader::new(&b);
    let cf = ClassFile::read(&mut r).unwrap();
    assert_eq!(cf.version.major, 52);
    assert_eq!(cf.version.minor, 0);
    assert!(cf.access_flags.contains(ACC_PUBLIC));
    assert!(cf.access_flags.contains(ACC_SUPER));
    let this_class = cf.this_class().unwrap();
    assert_eq!(this_class.get_name(&cf.constant_pool), Some("Foo"));
    let super_class = cf.super_class().unwrap();
    assert_eq!(super_class.get_name(&cf.constant_pool), Some("java/lang/Object"));
    assert!(cf.interfaces().is_empty());
    assert!(cf.fields.is_empty());
    assert!(cf.methods.is_empty());
    assert!(cf.attrs.is_empty());
}

#[test]
fn decoding_is_deterministic() {
    let b = minimal_class();
    let mut r1 = Reader::new(&b);
    let mut r2 = Reader::new(&b);
    let cf1 = ClassFile::read(&mut r1).unwrap();
    let cf2 = ClassFile::read(&mut r2).unwrap();
    assert_eq!(cf1, cf2);
}

#[test]
fn bad_magic_is_rejected_first() {
    let mut b = Vec::new();
    push_u32(&mut b, 0xDEADBEEF);
    b.extend_from_slice(&[0, 0, 0, 52, 0, 1]);
    let mut r = Reader::new(&b);
    assert_eq!(ClassFile::read(&mut r).unwrap_err(), Error::BadMagicValue(0xDEADBEEF));
}

#[test]
fn all_class_flag_bits_set_is_rejected() {
    let mut b = Vec::new();
    push_u32(&mut b, 0xCAFEBABE);
    push_u16(&mut b, 0);
    push_u16(&mut b, 52);
    push_u16(&mut b, 1); // empty pool
    push_u16(&mut b, 0xFFFF); // flags: every bit set
    let mut r = Reader::new(&b);
    assert_eq!(ClassFile::read(&mut r).unwrap_err(), Error::BadAccessFlags(0xFFFF));
}

#[test]
fn truncated_file_is_rejected() {
    let b = [0xCA, 0xFE];
    let mut r = Reader::new(&b);
    assert_eq!(ClassFile::read(&mut r).unwrap_err(), Error::Truncation);
}

#[test]
fn class_with_interfaces_fields_and_methods() {
    let mut b = Vec::new();
    push_u32(&mut b, 0xCAFEBABE);
    push_u16(&mut b, 3);
    push_u16(&mut b, 55);
    // pool: 1: Class->2, 2: "Foo", 3: Class->4, 4: "java/lang/Object",
    // 5: Class->6, 6: "Iface", 7: "x", 8: "I", 9: "run", 10: "()V"
    push_u16(&mut b, 11);
    b.push(7);
    push_u16(&mut b, 2);
    b.push(1);
    push_u16(&mut b, 3);
    b.extend_from_slice(b"Foo");
    b.push(7);
    push_u16(&mut b, 4);
    b.push(1);
    push_u16(&mut b, 16);
    b.extend_from_slice(b"java/lang/Object");
    b.push(7);
    push_u16(&mut b, 6);
    b.push(1);
    push_u16(&mut b, 5);
    b.extend_from_slice(b"Iface");
    b.push(1);
    push_u16(&mut b, 1);
    b.extend_from_slice(b"x");
    b.push(1);
    push_u16(&mut b, 1);
    b.extend_from_slice(b"I");
    b.push(1);
    push_u16(&mut b, 3);
    b.extend_from_slice(b"run");
    b.push(1);
    push_u16(&mut b, 3);
    b.extend_from_slice(b"()V");
    push_u16(&mut b, 0x0021); // flags
    push_u16(&mut b, 1); // this
    push_u16(&mut b, 3); // super
    push_u16(&mut b, 1); // one interface
    push_u16(&mut b, 5);
    push_u16(&mut b, 1); // one field: private int x
    push_u16(&mut b, 0x0002);
    push_u16(&mut b, 7);
    push_u16(&mut b, 8);
    push_u16(&mut b, 0);
    push_u16(&mut b, 1); // one method: public void run()
    push_u16(&mut b, 0x0001);
    push_u16(&mut b, 9);
    push_u16(&mut b, 10);
    push_u16(&mut b, 0);
    push_u16(&mut b, 0); // no class attributes
    let mut r = Reader::new(&b);
    let cf = ClassFile::read(&mut r).unwrap();
    assert_eq!(cf.interfaces().len(), 1);
    let iface = cf.constant_pool.get_class_info(cf.interfaces()[0]).unwrap();
    assert_eq!(iface.get_name(&cf.constant_pool), Some("Iface"));
    assert_eq!(cf.fields.len(), 1);
    assert_eq!(cf.fields[0].name(&cf.constant_pool), Some("x"));
    assert_eq!(cf.fields[0].desc(&cf.constant_pool), Some("I"));
    assert_eq!(cf.fields[0].access_flags.bits(), 0x0002);
    assert_eq!(cf.methods.len(), 1);
    assert_eq!(cf.methods[0].name(&cf.constant_pool), Some("run"));
    assert_eq!(cf.methods[0].desc(&cf.constant_pool), Some("()V"));
}

#[test]
fn field_flags_outside_the_closed_set_are_rejected() {
    let mut b = Vec::new();
    push_u32(&mut b, 0xCAFEBABE);
    push_u16(&mut b, 0);
    push_u16(&mut b, 52);
    push_u16(&mut b, 1); // empty pool
    push_u16(&mut b, 0x0021);
    push_u16(&mut b, 0);
    push_u16(&mut b, 0);
    push_u16(&mut b, 0); // no interfaces
    push_u16(&mut b, 1); // one field
    push_u16(&mut b, 0x0020); // ACC_SUPER is not a field flag
    let mut r = Reader::new(&b);
    assert_eq!(ClassFile::read(&mut r).unwrap_err(), Error::BadAccessFlags(0x0020));
}

#[test]
fn super_class_index_zero_is_absent() {
    let mut b = Vec::new();
    push_u32(&mut b, 0xCAFEBABE);
    push_u16(&mut b, 0);
    push_u16(&mut b, 52);
    push_u16(&mut b, 3);
    b.push(7);
    push_u16(&mut b, 2);
    b.push(1);
    push_u16(&mut b, 16);
    b.extend_from_slice(b"java/lang/Object");
    push_u16(&mut b, 0x0021);
    push_u16(&mut b, 1); // this
    push_u16(&mut b, 0); // super: none
    push_u16(&mut b, 0);
    push_u16(&mut b, 0);
    push_u16(&mut b, 0);
    push_u16(&mut b, 0);
    let mut r = Reader::new(&b);
    let cf = ClassFile::read(&mut r).unwrap();
    assert!(cf.super_class().is_none());
    assert_eq!(
        cf.this_class().unwrap().get_name(&cf.constant_pool),
        Some("java/lang/Object")
    );
}
