//! Access-flag bitsets, one closed set of named bits per context.
//!
//! Decoding a flags value that sets any bit outside the known set for its
//! context is a hard error for that context; there is no silent masking.

use vstd::prelude::*;

verus! {

/// Declared public; may be accessed from outside its package.
pub const ACC_PUBLIC: u16 = 0x0001;
/// Declared private; usable only within the defining class.
pub const ACC_PRIVATE: u16 = 0x0002;
/// Declared protected; may be accessed within subclasses.
pub const ACC_PROTECTED: u16 = 0x0004;
/// Declared static.
pub const ACC_STATIC: u16 = 0x0008;
/// Declared final.
pub const ACC_FINAL: u16 = 0x0010;
/// Treat superclass methods specially under the invokespecial instruction
/// (class context), or declared synchronized (method context).
pub const ACC_SUPER: u16 = 0x0020;
/// Declared synchronized; invocation is wrapped by a monitor use.
pub const ACC_SYNCHRONIZED: u16 = 0x0020;
/// Declared volatile (field context), or a compiler-generated bridge method
/// (method context).
pub const ACC_VOLATILE: u16 = 0x0040;
/// A bridge method, generated by the compiler.
pub const ACC_BRIDGE: u16 = 0x0040;
/// Declared transient (field context), or declared with a variable number of
/// arguments (method context).
pub const ACC_TRANSIENT: u16 = 0x0080;
/// Declared with variable number of arguments.
pub const ACC_VARARGS: u16 = 0x0080;
/// Declared native; implemented in a language other than Java.
pub const ACC_NATIVE: u16 = 0x0100;
/// Is an interface, not a class.
pub const ACC_INTERFACE: u16 = 0x0200;
/// Declared abstract.
pub const ACC_ABSTRACT: u16 = 0x0400;
/// Declared strictfp; floating-point mode is FP-strict.
pub const ACC_STRICT: u16 = 0x0800;
/// Declared synthetic; not present in the source code.
pub const ACC_SYNTHETIC: u16 = 0x1000;
/// Declared as an annotation type.
pub const ACC_ANNOTATION: u16 = 0x2000;
/// Declared as an enum type.
pub const ACC_ENUM: u16 = 0x4000;

/// The bits a class access-flags value may set.
pub const CLASS_FLAGS_MASK: u16 = 0x7631;
/// The bits a field access-flags value may set.
pub const FIELD_FLAGS_MASK: u16 = 0x50df;
/// The bits a method access-flags value may set.
pub const METHOD_FLAGS_MASK: u16 = 0x1dff;
/// The bits an inner-class access-flags value may set.
pub const INNER_CLASS_FLAGS_MASK: u16 = 0x761f;

/// The access flags of a class.
#[derive(Debug, Clone, Copy, PartialEq, Eq, Structural)]
pub struct ClassAccessFlags {
    pub bits: u16,
}

impl ClassAccessFlags {
    /// Accepts exactly the values whose bits all lie in the class mask.
    pub fn from_bits(bits: u16) -> (r: Option<ClassAccessFlags>)
        ensures
            r == (if bits & CLASS_FLAGS_MASK == bits {
                Some(ClassAccessFlags { bits })
            } else {
                None::<ClassAccessFlags>
            }),
    {
        if bits & CLASS_FLAGS_MASK == bits {
            Some(ClassAccessFlags { bits })
        } else {
            None
        }
    }

    pub fn bits(&self) -> (r: u16)
        ensures
            r == self.bits,
    {
        self.bits
    }

    /// True when every bit of `flag` is set in this value.
    pub fn contains(&self, flag: u16) -> (r: bool)
        ensures
            r == (self.bits & flag == flag),
    {
        self.bits & flag == flag
    }
}

/// The access flags of a field.
#[derive(Debug, Clone, Copy, PartialEq, Eq, Structural)]
pub struct FieldAccessFlags {
    pub bits: u16,
}

impl FieldAccessFlags {
    /// Accepts exactly the values whose bits all lie in the field mask.
    pub fn from_bits(bits: u16) -> (r: Option<FieldAccessFlags>)
        ensures
            r == (if bits & FIELD_FLAGS_MASK == bits {
                Some(FieldAccessFlags { bits })
            } else {
                None::<FieldAccessFlags>
            }),
    {
        if bits & FIELD_FLAGS_MASK == bits {
            Some(FieldAccessFlags { bits })
        } else {
            None
        }
    }

    pub fn bits(&self) -> (r: u16)
        ensures
            r == self.bits,
    {
        self.bits
    }

    /// True when every bit of `flag` is set in this value.
    pub fn contains(&self, flag: u16) -> (r: bool)
        ensures
            r == (self.bits & flag == flag),
    {
        self.bits & flag == flag
    }
}

/// The access flags of a method.
#[derive(Debug, Clone, Copy, PartialEq, Eq, Structural)]
pub struct MethodAccessFlags {
    pub bits: u16,
}

impl MethodAccessFlags {
    /// Accepts exactly the values whose bits all lie in the method mask.
    pub fn from_bits(bits: u16) -> (r: Option<MethodAccessFlags>)
        ensures
            r == (if bits & METHOD_FLAGS_MASK == bits {
                Some(MethodAccessFlags { bits })
            } else {
                None::<MethodAccessFlags>
            }),
    {
        if bits & METHOD_FLAGS_MASK == bits {
            Some(MethodAccessFlags { bits })
        } else {
            None
        }
    }

    pub fn bits(&self) -> (r: u16)
        ensures
            r == self.bits,
    {
        self.bits
    }

    /// True when every bit of `flag` is set in this value.
    pub fn contains(&self, flag: u16) -> (r: bool)
        ensures
            r == (self.bits & flag == flag),
    {
        self.bits & flag == flag
    }
}

/// The access flags of an entry of the inner-classes attribute.
#[derive(Debug, Clone, Copy, PartialEq, Eq, Structural)]
pub struct InnerClassAccessFlags {
    pub bits: u16,
}

impl InnerClassAccessFlags {
    /// Accepts exactly the values whose bits all lie in the inner-class mask.
    pub fn from_bits(bits: u16) -> (r: Option<InnerClassAccessFlags>)
        ensures
            r == (if bits & INNER_CLASS_FLAGS_MASK == bits {
                Some(InnerClassAccessFlags { bits })
            } else {
                None::<InnerClassAccessFlags>
            }),
    {
        if bits & INNER_CLASS_FLAGS_MASK == bits {
            Some(InnerClassAccessFlags { bits })
        } else {
            None
        }
    }

    pub fn bits(&self) -> (r: u16)
        ensures
            r == self.bits,
    {
        self.bits
    }

    /// True when every bit of `flag` is set in this value.
    pub fn contains(&self, flag: u16) -> (r: bool)
        ensures
            r == (self.bits & flag == flag),
    {
        self.bits & flag == flag
    }
}

} // verus!
