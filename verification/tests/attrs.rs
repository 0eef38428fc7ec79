//! Attribute decoding: the name-keyed dispatch, the unknown-name
//! tolerance, payload isolation, and the nested grammars.

use classfile::attr::annotations::ElementValue;
use classfile::attr::stack_map::StackMapFrameInfo;
use classfile::attr::{Attr, AttrInfo};
use classfile::constant::ConstantPool;
use classfile::error::Error;
use classfile::reader::Reader;

fn push_u16(out: &mut Vec<u8>, v: u16) {
    out.extend_from_slice(&v.to_be_bytes());
}

fn push_u32(out: &mut Vec<u8>, v: u32) {
    out.extend_from_slice(&v.to_be_bytes());
}

/// A pool whose entries are the given Utf8 strings, at indices 1, 2, ...
fn utf8_pool(strings: &[&str]) -> ConstantPool {
    let mut b = Vec::new();
    push_u16(&mut b, strings.len() as u16 + 1);
    for s in strings {
        b.push(1);
        push_u16(&mut b, s.len() as u16);
        b.extend_from_slice(s.as_bytes());
    }
    let mut r = Reader::new(&b);
    ConstantPool::read(&mut r).unwrap()
}

fn attr_bytes(name_index: u16, payload: &[u8]) -> Vec<u8> {
    let mut b = Vec::new();
    push_u16(&mut b, name_index);
    push_u32(&mut b, payload.len() as u32);
    b.extend_from_slice(payload);
    b
}

#[test]
fn unknown_attribute_is_tolerated() {
    let pool = utf8_pool(&["Frobnicate", "SourceFile", "X.java"]);
    let mut b = attr_bytes(1, &[0xde, 0xad, 0x01]);
    // a second, known attribute follows in the same list
    b.extend_from_slice(&attr_bytes(2, &[0, 3]));
    let mut r = Reader::new(&b);
    let first = Attr::read(&mut r, &pool).unwrap();
    match &first.info {
        AttrInfo::Unknown(data) => assert_eq!(data.as_slice(), &[0xde, 0xad, 0x01]),
        other => panic!("expected Unknown, got {:?}", other),
    }
    let second = Attr::read(&mut r, &pool).unwrap();
    match &second.info {
        AttrInfo::SourceFile(info) => {
            assert_eq!(info.sourcefile(&pool), Some("X.java"));
        }
        other => panic!("expected SourceFile, got {:?}", other),
    }
}

#[test]
fn bad_attr_name_is_rejected() {
    let pool = utf8_pool(&["SourceFile"]);
    // name index 2 resolves to nothing
    let b = attr_bytes(2, &[]);
    let mut r = Reader::new(&b);
    assert_eq!(Attr::read(&mut r, &pool).unwrap_err(), Error::BadAttrName(2));
}

#[test]
fn known_attr_with_leftover_payload_is_unknown() {
    let pool = utf8_pool(&["SourceFile"]);
    // a SourceFile payload is two bytes; four arrive
    let b = attr_bytes(1, &[0, 1, 9, 9]);
    let mut r = Reader::new(&b);
    let attr = Attr::read(&mut r, &pool).unwrap();
    match &attr.info {
        AttrInfo::Unknown(data) => assert_eq!(data.as_slice(), &[0, 1, 9, 9]),
        other => panic!("expected Unknown, got {:?}", other),
    }
}

#[test]
fn known_attr_with_short_payload_is_unknown() {
    let pool = utf8_pool(&["SourceFile"]);
    let b = attr_bytes(1, &[7]);
    let mut r = Reader::new(&b);
    let attr = Attr::read(&mut r, &pool).unwrap();
    match &attr.info {
        AttrInfo::Unknown(data) => assert_eq!(data.as_slice(), &[7]),
        other => panic!("expected Unknown, got {:?}", other),
    }
}

#[test]
fn inner_classes_bad_flags_propagate() {
    let pool = utf8_pool(&["InnerClasses"]);
    let mut payload = Vec::new();
    push_u16(&mut payload, 1);
    push_u16(&mut payload, 0);
    push_u16(&mut payload, 0);
    push_u16(&mut payload, 0);
    push_u16(&mut payload, 0xffff);
    let b = attr_bytes(1, &payload);
    let mut r = Reader::new(&b);
    assert_eq!(Attr::read(&mut r, &pool).unwrap_err(), Error::BadAccessFlags(0xffff));
}

#[test]
fn synthetic_and_deprecated_markers() {
    let pool = utf8_pool(&["Synthetic", "Deprecated"]);
    let mut b = attr_bytes(1, &[]);
    b.extend_from_slice(&attr_bytes(2, &[]));
    let mut r = Reader::new(&b);
    assert!(matches!(Attr::read(&mut r, &pool).unwrap().info, AttrInfo::Synthetic(_)));
    assert!(matches!(Attr::read(&mut r, &pool).unwrap().info, AttrInfo::Deprecated(_)));
}

#[test]
fn source_debug_extension_text() {
    let pool = utf8_pool(&["SourceDebugExtension"]);
    let b = attr_bytes(1, b"debug text");
    let mut r = Reader::new(&b);
    let attr = Attr::read(&mut r, &pool).unwrap();
    match &attr.info {
        AttrInfo::SourceDebugExtension(info) => assert_eq!(info.data, "debug text"),
        other => panic!("expected SourceDebugExtension, got {:?}", other),
    }
}

#[test]
fn line_number_table_entries() {
    let pool = utf8_pool(&["LineNumberTable"]);
    let mut payload = Vec::new();
    push_u16(&mut payload, 2);
    push_u16(&mut payload, 0);
    push_u16(&mut payload, 10);
    push_u16(&mut payload, 4);
    push_u16(&mut payload, 11);
    let b = attr_bytes(1, &payload);
    let mut r = Reader::new(&b);
    let attr = Attr::read(&mut r, &pool).unwrap();
    match &attr.info {
        AttrInfo::LineNumberTable(info) => {
            let entries = info.entries();
            assert_eq!(entries.len(), 2);
            assert_eq!(entries[0].start_pc, 0);
            assert_eq!(entries[0].line_number, 10);
            assert_eq!(entries[1].start_pc, 4);
            assert_eq!(entries[1].line_number, 11);
        }
        other => panic!("expected LineNumberTable, got {:?}", other),
    }
}

#[test]
fn stack_map_table_frames_and_offsets() {
    let pool = utf8_pool(&["StackMapTable"]);
    let mut payload = Vec::new();
    push_u16(&mut payload, 3);
    payload.push(5); // same frame, delta 5
    payload.push(3); // same frame, delta 3
    payload.push(251); // same frame extended
    push_u16(&mut payload, 7); // explicit delta 7
    let b = attr_bytes(1, &payload);
    let mut r = Reader::new(&b);
    let attr = Attr::read(&mut r, &pool).unwrap();
    match &attr.info {
        AttrInfo::StackMapTable(info) => {
            let frames = info.entries();
            assert_eq!(frames.len(), 3);
            // deltas [5, 3, 7] resolve to offsets [5, 9, 17]
            assert_eq!(frames[0].offset_delta(), 5);
            assert_eq!(frames[0].offset(&frames[0..0]), 5);
            assert_eq!(frames[1].offset(&frames[0..1]), 9);
            assert_eq!(frames[2].offset(&frames[0..2]), 17);
            assert!(matches!(frames[2].info, StackMapFrameInfo::SameFrameExtended(_)));
        }
        other => panic!("expected StackMapTable, got {:?}", other),
    }
}

#[test]
fn stack_map_reserved_tag_is_rejected() {
    let pool = utf8_pool(&["StackMapTable"]);
    let mut payload = Vec::new();
    push_u16(&mut payload, 1);
    payload.push(200); // reserved range
    let b = attr_bytes(1, &payload);
    let mut r = Reader::new(&b);
    assert_eq!(Attr::read(&mut r, &pool).unwrap_err(), Error::BadTagValue(200));
}

#[test]
fn exceptions_table_resolves() {
    let pool = {
        // 1: Exceptions name, 2: Class -> 3, 3: Utf8 "E"
        let mut b = Vec::new();
        push_u16(&mut b, 4);
        b.push(1);
        push_u16(&mut b, 10);
        b.extend_from_slice(b"Exceptions");
        b.push(7);
        push_u16(&mut b, 3);
        b.push(1);
        push_u16(&mut b, 1);
        b.extend_from_slice(b"E");
        let mut r = Reader::new(&b);
        ConstantPool::read(&mut r).unwrap()
    };
    let mut payload = Vec::new();
    push_u16(&mut payload, 2);
    push_u16(&mut payload, 2);
    push_u16(&mut payload, 0);
    let b = attr_bytes(1, &payload);
    let mut r = Reader::new(&b);
    let attr = Attr::read(&mut r, &pool).unwrap();
    match &attr.info {
        AttrInfo::Exceptions(info) => {
            let table = info.table(&pool);
            assert_eq!(table.len(), 2);
            assert_eq!(table[0].unwrap().get_name(&pool), Some("E"));
            assert!(table[1].is_none());
        }
        other => panic!("expected Exceptions, got {:?}", other),
    }
}

#[test]
fn code_attr_with_nested_line_number_table() {
    let pool = utf8_pool(&["Code", "LineNumberTable"]);
    let mut nested = Vec::new();
    push_u16(&mut nested, 1);
    push_u16(&mut nested, 0);
    push_u16(&mut nested, 42);
    let nested_attr = attr_bytes(2, &nested);
    let mut payload = Vec::new();
    push_u16(&mut payload, 2); // max_stack
    push_u16(&mut payload, 3); // max_locals
    push_u32(&mut payload, 4); // code size
    payload.extend_from_slice(&[0x2a, 0xb7, 0x00, 0xb1]);
    push_u16(&mut payload, 1); // one handler
    push_u16(&mut payload, 0);
    push_u16(&mut payload, 4);
    push_u16(&mut payload, 4);
    push_u16(&mut payload, 0);
    push_u16(&mut payload, 1); // one nested attribute
    payload.extend_from_slice(&nested_attr);
    let b = attr_bytes(1, &payload);
    let mut r = Reader::new(&b);
    let attr = Attr::read(&mut r, &pool).unwrap();
    match &attr.info {
        AttrInfo::Code(info) => {
            assert_eq!(info.max_stack, 2);
            assert_eq!(info.max_locals, 3);
            assert_eq!(info.code.as_slice(), &[0x2a, 0xb7, 0x00, 0xb1]);
            assert_eq!(info.exception_handlers.len(), 1);
            assert_eq!(info.exception_handlers[0].end_pc, 4);
            assert!(info.exception_handlers[0].catch_type(&pool).is_none());
            assert_eq!(info.attrs.len(), 1);
            match &info.attrs[0].info {
                AttrInfo::LineNumberTable(t) => {
                    assert_eq!(t.entries()[0].line_number, 42);
                }
                other => panic!("expected a nested LineNumberTable, got {:?}", other),
            }
        }
        other => panic!("expected Code, got {:?}", other),
    }
}

#[test]
fn annotations_with_nested_values() {
    let pool = utf8_pool(&["RuntimeVisibleAnnotations", "LType;", "value"]);
    let mut payload = Vec::new();
    push_u16(&mut payload, 1); // one annotation
    push_u16(&mut payload, 2); // type index
    push_u16(&mut payload, 2); // two members
    // member "value": an array of two constants
    push_u16(&mut payload, 3);
    payload.push(b'[');
    push_u16(&mut payload, 2);
    payload.push(b'I');
    push_u16(&mut payload, 7);
    payload.push(b's');
    push_u16(&mut payload, 8);
    // member "value": a nested annotation
    push_u16(&mut payload, 3);
    payload.push(b'@');
    push_u16(&mut payload, 2);
    push_u16(&mut payload, 0);
    let b = attr_bytes(1, &payload);
    let mut r = Reader::new(&b);
    let attr = Attr::read(&mut r, &pool).unwrap();
    match &attr.info {
        AttrInfo::RuntimeVisibleAnnotations(info) => {
            let anns = info.annotations();
            assert_eq!(anns.len(), 1);
            assert_eq!(anns[0].ty(&pool), Some("LType;"));
            let members = anns[0].element_values();
            assert_eq!(members.len(), 2);
            assert_eq!(members[0].name(&pool), Some("value"));
            match &members[0].value {
                ElementValue::Array(values) => {
                    assert_eq!(values.len(), 2);
                    assert!(matches!(values[0], ElementValue::ConstValue(_)));
                }
                other => panic!("expected an array member, got {:?}", other),
            }
            match &members[1].value {
                ElementValue::Annotation(nested) => {
                    assert_eq!(nested.ty(&pool), Some("LType;"));
                    assert_eq!(nested.element_values().len(), 0);
                }
                other => panic!("expected a nested annotation, got {:?}", other),
            }
        }
        other => panic!("expected RuntimeVisibleAnnotations, got {:?}", other),
    }
}

#[test]
fn element_value_bad_tag_is_rejected() {
    let pool = utf8_pool(&["RuntimeVisibleAnnotations"]);
    let mut payload = Vec::new();
    push_u16(&mut payload, 1);
    push_u16(&mut payload, 0);
    push_u16(&mut payload, 1);
    push_u16(&mut payload, 0);
    payload.push(b'?');
    let b = attr_bytes(1, &payload);
    let mut r = Reader::new(&b);
    assert_eq!(Attr::read(&mut r, &pool).unwrap_err(), Error::BadTagValue(b'?'));
}

#[test]
fn signature_attr_resolves() {
    let pool = utf8_pool(&["Signature", "()V"]);
    let b = attr_bytes(1, &[0, 2]);
    let mut r = Reader::new(&b);
    let attr = Attr::read(&mut r, &pool).unwrap();
    assert_eq!(attr.name(&pool), Some("Signature"));
    match &attr.info {
        AttrInfo::Signature(info) => assert_eq!(info.value(&pool), Some("()V")),
        other => panic!("expected Signature, got {:?}", other),
    }
}

#[test]
fn local_variable_table_entries() {
    let pool = utf8_pool(&["LocalVariableTable", "this", "LFoo;"]);
    let mut payload = Vec::new();
    push_u16(&mut payload, 1);
    push_u16(&mut payload, 0); // start_pc
    push_u16(&mut payload, 8); // length
    push_u16(&mut payload, 2); // name
    push_u16(&mut payload, 3); // descriptor
    push_u16(&mut payload, 0); // slot
    let b = attr_bytes(1, &payload);
    let mut r = Reader::new(&b);
    let attr = Attr::read(&mut r, &pool).unwrap();
    match &attr.info {
        AttrInfo::LocalVariableTable(info) => {
            let entries = info.entries();
            assert_eq!(entries.len(), 1);
            assert_eq!(entries[0].name(&pool), Some("this"));
            assert_eq!(entries[0].desc(&pool), Some("LFoo;"));
            assert_eq!(entries[0].length, 8);
        }
        other => panic!("expected LocalVariableTable, got {:?}", other),
    }
}

#[test]
fn enclosing_method_without_method_index() {
    // 1: attr name, 2: Class -> 3, 3: Utf8 "Outer"
    let mut b = Vec::new();
    push_u16(&mut b, 4);
    b.push(1);
    push_u16(&mut b, 15);
    b.extend_from_slice(b"EnclosingMethod");
    b.push(7);
    push_u16(&mut b, 3);
    b.push(1);
    push_u16(&mut b, 5);
    b.extend_from_slice(b"Outer");
    let mut r = Reader::new(&b);
    let pool = ConstantPool::read(&mut r).unwrap();
    let mut payload = Vec::new();
    push_u16(&mut payload, 2); // class index
    push_u16(&mut payload, 0); // no method
    let ab = attr_bytes(1, &payload);
    let mut r = Reader::new(&ab);
    let attr = Attr::read(&mut r, &pool).unwrap();
    match &attr.info {
        AttrInfo::EnclosingMethod(info) => {
            assert_eq!(info.class(&pool).unwrap().get_name(&pool), Some("Outer"));
            assert!(info.method(&pool).is_none());
        }
        other => panic!("expected EnclosingMethod, got {:?}", other),
    }
}
