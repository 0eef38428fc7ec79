//! Constant-pool decoding and the 1-based, two-slot indexing rules.

use classfile::constant::{ConstantPool, ConstantPoolEntry};
use classfile::error::Error;
use classfile::reader::Reader;

fn push_u16(out: &mut Vec<u8>, v: u16) {
    out.extend_from_slice(&v.to_be_bytes());
}

#[test]
fn empty_pool_decodes() {
    let mut b = Vec::new();
    push_u16(&mut b, 1);
    let mut r = Reader::new(&b);
    let pool = ConstantPool::read(&mut r).unwrap();
    assert!(pool.get(1).is_none());
}

#[test]
fn long_entry_skips_slot() {
    // count = 4: a Long occupies logical slots 1 and 2, the Utf8 slot 3.
    let mut b = Vec::new();
    push_u16(&mut b, 4);
    b.push(5);
    b.extend_from_slice(&0x0102030405060708i64.to_be_bytes());
    b.push(1);
    push_u16(&mut b, 1);
    b.extend_from_slice(b"A");
    let mut r = Reader::new(&b);
    let pool = ConstantPool::read(&mut r).unwrap();
    match pool.get(1) {
        Some(ConstantPoolEntry::Long(info)) => {
            assert_eq!(info.get_value(), 0x0102030405060708);
        }
        other => panic!("expected a Long at index 1, got {:?}", other),
    }
    assert!(pool.get(2).is_none(), "the slot a Long swallows must be absent");
    assert_eq!(pool.get_str(3), Some("A"));
}

#[test]
fn double_entry_skips_slot() {
    let mut b = Vec::new();
    push_u16(&mut b, 4);
    b.push(6);
    b.extend_from_slice(&0x4000000000000000u64.to_be_bytes());
    b.push(3);
    b.extend_from_slice(&(-7i32).to_be_bytes());
    let mut r = Reader::new(&b);
    let pool = ConstantPool::read(&mut r).unwrap();
    match pool.get(1) {
        Some(ConstantPoolEntry::Double(info)) => {
            assert_eq!(info.get_bits(), 0x4000000000000000);
        }
        other => panic!("expected a Double at index 1, got {:?}", other),
    }
    assert!(pool.get(2).is_none());
    match pool.get(3) {
        Some(ConstantPoolEntry::Integer(info)) => assert_eq!(info.get_value(), -7),
        other => panic!("expected an Integer at index 3, got {:?}", other),
    }
}

#[test]
fn index_zero_and_out_of_range_are_absent() {
    let mut b = Vec::new();
    push_u16(&mut b, 2);
    b.push(1);
    push_u16(&mut b, 1);
    b.extend_from_slice(b"x");
    let mut r = Reader::new(&b);
    let pool = ConstantPool::read(&mut r).unwrap();
    assert!(pool.get(0).is_none());
    assert_eq!(pool.get_str(1), Some("x"));
    assert!(pool.get(2).is_none());
    assert!(pool.get(1000).is_none());
}

#[test]
fn wrong_kind_lookup_is_absent() {
    let mut b = Vec::new();
    push_u16(&mut b, 3);
    b.push(1);
    push_u16(&mut b, 1);
    b.extend_from_slice(b"y");
    b.push(7);
    push_u16(&mut b, 1);
    let mut r = Reader::new(&b);
    let pool = ConstantPool::read(&mut r).unwrap();
    // index 1 is a Utf8: not a class; index 2 is a Class: not a string.
    assert!(pool.get_class_info(1).is_none());
    assert!(pool.get_str(2).is_none());
    assert_eq!(pool.get_class_info(2).unwrap().get_name(&pool), Some("y"));
}

#[test]
fn bad_pool_tag_is_rejected() {
    let mut b = Vec::new();
    push_u16(&mut b, 2);
    b.push(99);
    let mut r = Reader::new(&b);
    assert_eq!(ConstantPool::read(&mut r).unwrap_err(), Error::BadTagValue(99));
}

#[test]
fn truncated_pool_is_rejected() {
    let mut b = Vec::new();
    push_u16(&mut b, 3);
    b.push(3);
    b.push(0x01); // an Integer needs four bytes; only one follows
    let mut r = Reader::new(&b);
    assert_eq!(ConstantPool::read(&mut r).unwrap_err(), Error::Truncation);
}

#[test]
fn invalid_utf8_entry_is_rejected() {
    let mut b = Vec::new();
    push_u16(&mut b, 2);
    b.push(1);
    push_u16(&mut b, 2);
    b.push(0xff);
    b.push(0xfe);
    let mut r = Reader::new(&b);
    assert_eq!(ConstantPool::read(&mut r).unwrap_err(), Error::Utf8DecodeError);
}

#[test]
fn multibyte_utf8_entry_is_decoded() {
    let text = "\u{e9}tat";
    let encoded = text.as_bytes();
    let mut b = Vec::new();
    push_u16(&mut b, 2);
    b.push(1);
    push_u16(&mut b, encoded.len() as u16);
    b.extend_from_slice(encoded);
    let mut r = Reader::new(&b);
    let pool = ConstantPool::read(&mut r).unwrap();
    assert_eq!(pool.get_str(1), Some(text));
}

#[test]
fn reference_entries_resolve() {
    // 1: FieldRef(class 2, name-and-type 4), 2: Class(3), 3: Utf8 "C",
    // 4: NameAndType(5, 6), 5: Utf8 "f", 6: Utf8 "I"
    let mut b = Vec::new();
    push_u16(&mut b, 7);
    b.push(9);
    push_u16(&mut b, 2);
    push_u16(&mut b, 4);
    b.push(7);
    push_u16(&mut b, 3);
    b.push(1);
    push_u16(&mut b, 1);
    b.extend_from_slice(b"C");
    b.push(12);
    push_u16(&mut b, 5);
    push_u16(&mut b, 6);
    b.push(1);
    push_u16(&mut b, 1);
    b.extend_from_slice(b"f");
    b.push(1);
    push_u16(&mut b, 1);
    b.extend_from_slice(b"I");
    let mut r = Reader::new(&b);
    let pool = ConstantPool::read(&mut r).unwrap();
    match pool.get(1) {
        Some(ConstantPoolEntry::FieldRef(info)) => {
            assert_eq!(info.get_class(&pool).unwrap().get_name(&pool), Some("C"));
            let nt = info.get_name_and_type(&pool).unwrap();
            assert_eq!(nt.get_name(&pool), Some("f"));
            assert_eq!(nt.get_descriptor(&pool), Some("I"));
        }
        other => panic!("expected a FieldRef at index 1, got {:?}", other),
    }
}

#[test]
fn method_handle_and_string_entries() {
    // 1: MethodHandle(kind 6, ref 2), 2: String(3), 3: Utf8 "hi"
    let mut b = Vec::new();
    push_u16(&mut b, 4);
    b.push(15);
    b.push(6);
    push_u16(&mut b, 2);
    b.push(8);
    push_u16(&mut b, 3);
    b.push(1);
    push_u16(&mut b, 2);
    b.extend_from_slice(b"hi");
    let mut r = Reader::new(&b);
    let pool = ConstantPool::read(&mut r).unwrap();
    match pool.get(1) {
        Some(ConstantPoolEntry::MethodHandle(info)) => {
            assert_eq!(info.get_ref_kind(), 6);
            assert!(matches!(info.get_ref(&pool), Some(ConstantPoolEntry::String(_))));
        }
        other => panic!("expected a MethodHandle at index 1, got {:?}", other),
    }
    match pool.get(2) {
        Some(ConstantPoolEntry::String(info)) => {
            assert_eq!(info.get_value(&pool), Some("hi"));
        }
        other => panic!("expected a String at index 2, got {:?}", other),
    }
}

#[test]
fn float_and_double_keep_raw_bits() {
    let mut b = Vec::new();
    push_u16(&mut b, 2);
    b.push(4);
    b.extend_from_slice(&0x3f80_0000u32.to_be_bytes());
    let mut r = Reader::new(&b);
    let pool = ConstantPool::read(&mut r).unwrap();
    match pool.get(1) {
        Some(ConstantPoolEntry::Float(info)) => assert_eq!(info.get_bits(), 0x3f80_0000),
        other => panic!("expected a Float at index 1, got {:?}", other),
    }
}

#[test]
fn method_type_and_invoke_dynamic_entries() {
    // 1: MethodType -> 3, 2: InvokeDynamic(0, 4), 3: Utf8 "()V",
    // 4: NameAndType(5, 3), 5: Utf8 "m"
    let mut b = Vec::new();
    push_u16(&mut b, 6);
    b.push(16);
    push_u16(&mut b, 3);
    b.push(18);
    push_u16(&mut b, 0);
    push_u16(&mut b, 4);
    b.push(1);
    push_u16(&mut b, 3);
    b.extend_from_slice(b"()V");
    b.push(12);
    push_u16(&mut b, 5);
    push_u16(&mut b, 3);
    b.push(1);
    push_u16(&mut b, 1);
    b.extend_from_slice(b"m");
    let mut r = Reader::new(&b);
    let pool = ConstantPool::read(&mut r).unwrap();
    match pool.get(1) {
        Some(ConstantPoolEntry::MethodType(info)) => {
            assert_eq!(info.get_desc(&pool), Some("()V"));
        }
        other => panic!("expected a MethodType at index 1, got {:?}", other),
    }
    match pool.get(2) {
        Some(ConstantPoolEntry::InvokedDynamic(info)) => {
            assert!(info.get_bootstrap_method_attr(&pool).is_none());
            let nt = info.get_name_and_type(&pool).unwrap();
            assert_eq!(nt.get_name(&pool), Some("m"));
            assert_eq!(nt.get_descriptor(&pool), Some("()V"));
        }
        other => panic!("expected an InvokeDynamic at index 2, got {:?}", other),
    }
}
