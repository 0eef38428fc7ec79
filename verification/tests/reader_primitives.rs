//! The big-endian primitive reads and their truncation behaviour.

use classfile::error::Error;
use classfile::reader::Reader;
use classfile::version::Version;

#[test]
fn big_endian_values_are_exact() {
    let b = [0x12, 0x34, 0x56, 0x78, 0x9a, 0xbc, 0xde, 0xf0];
    let mut r = Reader::new(&b);
    assert_eq!(r.read_u16().unwrap(), 0x1234);
    assert_eq!(r.read_u16().unwrap(), 0x5678);
    assert_eq!(r.read_u32().unwrap(), 0x9abc_def0);
}

#[test]
fn read_u8_and_u64() {
    let b = [0x01, 0x11, 0x22, 0x33, 0x44, 0x55, 0x66, 0x77, 0x88];
    let mut r = Reader::new(&b);
    assert_eq!(r.read_u8().unwrap(), 0x01);
    assert_eq!(r.read_u64().unwrap(), 0x1122_3344_5566_7788);
    assert_eq!(r.remaining(), 0);
}

#[test]
fn signed_reads_are_twos_complement() {
    let b = [0xff, 0xff, 0xff, 0xfe];
    let mut r = Reader::new(&b);
    assert_eq!(r.read_i32().unwrap(), -2);
    let b = [0xff, 0xff, 0xff, 0xff, 0xff, 0xff, 0xff, 0xfd];
    let mut r = Reader::new(&b);
    assert_eq!(r.read_i64().unwrap(), -3);
}

#[test]
fn read_exact_takes_the_requested_bytes() {
    let b = [1, 2, 3, 4, 5];
    let mut r = Reader::new(&b);
    assert_eq!(r.read_exact(3).unwrap(), vec![1, 2, 3]);
    assert_eq!(r.remaining(), 2);
    assert_eq!(r.read_exact(3).unwrap_err(), Error::Truncation);
    assert_eq!(r.read_exact(2).unwrap(), vec![4, 5]);
}

#[test]
fn reads_past_the_end_fail_and_do_not_advance() {
    let b = [0xab];
    let mut r = Reader::new(&b);
    assert_eq!(r.read_u16().unwrap_err(), Error::Truncation);
    assert_eq!(r.read_u32().unwrap_err(), Error::Truncation);
    assert_eq!(r.read_u8().unwrap(), 0xab);
    assert_eq!(r.read_u8().unwrap_err(), Error::Truncation);
}

#[test]
fn version_pair_is_stored_as_given() {
    let v = Version::new(52, 3);
    assert_eq!(v.major, 52);
    assert_eq!(v.minor, 3);
}
