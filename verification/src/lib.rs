//! A typed safety layer over the Java Native Interface.
//!
//! The runtime's function table is untyped: every value is a bare word, every
//! failure a sentinel followed by a deferred exception flag. This crate holds
//! the part of a binding that decides: which entry point a call goes to, what
//! is handed to it, and what its answer means. Performing a call needs raw
//! pointers and is left to the embedding program, which passes addresses and
//! plain values in and out.
//!
//! Every function is verified with Verus against the contract in its header.
//!
//! # Type Signatures
//!
//! Classes, methods and fields are looked up by readable signatures: `int`,
//! `int[]`, `java.lang.String`, `(java.lang.Object, int) -> java.lang.String`.
//! The module [`mangling`] holds their grammar.

pub mod text;
pub mod error;
pub mod ffi;
pub mod types;
pub mod mangling;
pub mod env;
pub mod vm;

pub use error::{Error, ErrorView};
pub use types::{
    IsArray, IsObject, JArray, JBooleanArray, JByteArray, JCharArray, JClass, JDoubleArray,
    JFieldID, JFloatArray, JIntArray, JLongArray, JMethodID, JNINativeMethod, JNIVersion,
    JNativeArray, JNativeSlice, JNativeType, JNativeVec, JNonVoidType, JObject, JObjectArray,
    JRefType, JShortArray, JString, JThrowable, JType, JValue, JWeak, JavaDownCast, JavaType,
    JavaUpCast, ReleaseMode, ViewState,
};
pub use env::JNIEnv;
pub use vm::JavaVM;
