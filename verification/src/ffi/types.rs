//! The values of the native interface as they are passed to the runtime.

use vstd::prelude::*;

verus! {

/// Real type for JByte on the JVM
pub type JByte = i8;

/// Real type for JShort on the JVM
pub type JShort = i16;

/// Real type for JInt on the JVM
pub type JInt = i32;

/// Real type for JLong on the JVM
pub type JLong = i64;

/// Real type for JBoolean on the JVM
pub type JBoolean = bool;

/// Real type for JChar on the JVM
pub type JChar = u16;

/// Real type for JSize on the JVM
pub type JSize = JInt;

/// Possible JVM reference types
#[derive(Debug, Copy, Clone, PartialEq, Eq, Structural)]
pub enum JObjectRefType {
    /// Reference is no longer valid
    JNIInvalidRefType,
    /// Reference is valid for the life of the current scope
    JNILocalRefType,
    /// Reference is valid forever
    JNIGlobalRefType,
    /// Reference is valid as long as non-weak references exist
    JNIWeakGlobalRefType,
}

impl JObjectRefType {
    /// The number that the runtime returns for this kind of reference.
    pub open spec fn code(self) -> int {
        match self {
            JObjectRefType::JNIInvalidRefType => 0,
            JObjectRefType::JNILocalRefType => 1,
            JObjectRefType::JNIGlobalRefType => 2,
            JObjectRefType::JNIWeakGlobalRefType => 3,
        }
    }
}

/// One argument or result of a call, as the runtime takes it. The runtime's
/// own value is an untagged union of these nine members; here the member that
/// is in use is named.
#[derive(Debug, Copy, Clone, PartialEq, Eq, Structural)]
pub enum JValue {
    /// Java primitive boolean value
    Z(bool),
    /// Java primitive byte value
    B(i8),
    /// Java primitive char value, one UTF-16 code unit
    C(u16),
    /// Java primitive short value
    S(i16),
    /// Java primitive int value
    I(i32),
    /// Java primitive long value
    J(i64),
    /// Java primitive float value, as the bits of its encoding
    F(u32),
    /// Java primitive double value, as the bits of its encoding
    D(u64),
    /// Java Object value: the address of a reference, or zero for null
    L(usize),
}

/// Data for attaching a thread to the JVM
#[derive(Debug, Copy, Clone, PartialEq, Eq, Structural)]
pub struct JavaVMAttachArgs {
    /// The version of the interface that is asked for
    pub version: i32,
    /// The address of the thread's name, or zero
    pub name: usize,
    /// The address of the thread group, or zero
    pub group: usize,
}

impl JavaVMAttachArgs {
    /// Create new JavaVMAttachArgs from a JNI version
    pub fn new(version: i32) -> (args: JavaVMAttachArgs)
        ensures
            args == (JavaVMAttachArgs { version, name: 0, group: 0 }),
    {
        JavaVMAttachArgs { version, name: 0, group: 0 }
    }
}

/// A buffer of primitive values as the runtime fills it: chars are code
/// units, floats and doubles the bits of their encoding.
#[derive(Debug)]
pub enum JBuffer {
    /// Buffer of boolean values
    Boolean(Vec<bool>),
    /// Buffer of byte values
    Byte(Vec<i8>),
    /// Buffer of char values
    Char(Vec<u16>),
    /// Buffer of short values
    Short(Vec<i16>),
    /// Buffer of int values
    Int(Vec<i32>),
    /// Buffer of long values
    Long(Vec<i64>),
    /// Buffer of float values
    Float(Vec<u32>),
    /// Buffer of double values
    Double(Vec<u64>),
}

} // verus!
