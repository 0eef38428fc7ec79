//! The terminal failures of a class-file decode.

use vstd::prelude::*;

verus! {

/// A structural violation found while decoding a class file.
///
/// Every failure is terminal: it aborts the enclosing decode and propagates
/// to the caller unchanged. The one deliberate tolerance — an attribute with
/// an unknown name — is a success path and never surfaces here.
#[derive(Debug, Clone, Copy, PartialEq, Eq, Structural)]
pub enum Error {
    /// The byte source was exhausted before a required field could be read.
    Truncation,
    /// The file does not begin with the required magic constant; carries the
    /// value that was found instead.
    BadMagicValue(u32),
    /// An unrecognized tag byte in a tagged-union context (constant-pool
    /// entry, stack-map frame, annotation element value); carries the byte.
    BadTagValue(u8),
    /// A flags value sets bits outside the closed set valid for its context;
    /// carries the raw value.
    BadAccessFlags(u16),
    /// An attribute's name index does not resolve to a usable string in the
    /// constant pool; carries the index.
    BadAttrName(usize),
    /// A Utf8 constant-pool entry's bytes are not valid UTF-8 text.
    Utf8DecodeError,
}

} // verus!
