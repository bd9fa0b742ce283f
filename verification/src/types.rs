//! The typed values that the safe operations take and return.

pub mod array;
pub mod cast;
pub mod jtype;
pub mod native_method;
pub mod object;
pub mod value;
pub mod version;

pub use array::{JNativeArray, JNativeSlice, JNativeVec, ReleaseMode, ViewState};
pub use cast::{IsArray, IsObject, JavaDownCast, JavaUpCast};
pub use jtype::{JNativeType, JNonVoidType, JRefType, JType};
pub use native_method::{JNINativeMethod, JavaType};
pub use object::{
    JArray, JBooleanArray, JByteArray, JCharArray, JClass, JDoubleArray, JFieldID, JFloatArray,
    JIntArray, JLongArray, JMethodID, JObject, JObjectArray, JShortArray, JString, JThrowable,
    JWeak,
};
pub use value::JValue;
pub use version::JNIVersion;

pub use super::ffi::{JBoolean, JByte, JChar, JInt, JLong, JShort};
