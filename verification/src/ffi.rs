//! The plain values that cross the boundary to the runtime.

pub mod constants;
pub mod native_interface;
pub mod types;

pub use native_interface::{
    ArrayFunction, ArrayOperation, CallFamily, FieldAccess, FieldFunction, MethodFunction,
};
pub use types::{
    JBoolean, JBuffer, JByte, JChar, JInt, JLong, JObjectRefType, JShort, JSize, JValue,
    JavaVMAttachArgs,
};
