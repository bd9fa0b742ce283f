//! What is needed to register a native method with a class.

use vstd::prelude::*;
use vstd::string::StringSliceAdditionalSpecFns;
use crate::env::{cstr_from_str, no_nul, nul_refused};
use crate::error::Error;
use crate::types::object::JObject;

verus! {

/// Marker trait for types that are valid for use in JNI functions
pub trait JavaType {

}

impl JavaType for bool {

}

impl JavaType for i8 {

}

impl JavaType for u16 {

}

impl JavaType for i16 {

}

impl JavaType for i32 {

}

impl JavaType for i64 {

}

impl<'a> JavaType for JObject<'a> {

}

impl<'a> JavaType for Option<JObject<'a>> {

}

/// A struct representing a single native method. Contains the name of the method, the signature
/// of the method, and the pointer to the actual Rust function to be invoked when the method is
/// called in the JVM
#[derive(Debug)]
pub struct JNINativeMethod {
    name: Vec<u8>,
    signature: Vec<u8>,
    ptr: usize,
}

impl JNINativeMethod {
    /// The name of the method, as a text for the runtime.
    pub closed spec fn spec_name(&self) -> Seq<u8> {
        self.name@
    }

    /// The signature of the method, as a text for the runtime.
    pub closed spec fn spec_signature(&self) -> Seq<u8> {
        self.signature@
    }

    /// The address of the function.
    pub closed spec fn addr(&self) -> usize {
        self.ptr
    }

    /// Create a new NativeMethod from a name, signature, and the address of
    /// the function to be called when the method is invoked; `U` is the type
    /// that the function returns. Refused if the name or the signature holds
    /// a zero byte.
    pub fn new<U: JavaType>(name: &str, signature: &str, fn_ptr: usize) -> (r: Result<
        JNINativeMethod,
        Error,
    >)
        ensures
            match r {
                Ok(m) => m.spec_name() == name.spec_bytes() && m.spec_signature()
                    == signature.spec_bytes() && m.addr() == fn_ptr && no_nul(m.spec_name())
                    && no_nul(m.spec_signature()),
                Err(e) => {
                    ||| nul_refused(name.spec_bytes(), e@)
                    ||| no_nul(name.spec_bytes()) && nul_refused(signature.spec_bytes(), e@)
                },
            },
    {
        match cstr_from_str(name) {
            Ok(c_name) => match cstr_from_str(signature) {
                Ok(c_sig) => Ok(JNINativeMethod { name: c_name, signature: c_sig, ptr: fn_ptr }),
                Err(e) => Err(e),
            },
            Err(e) => Err(e),
        }
    }

    /// The name of the method, as a text for the runtime
    pub fn name(&self) -> (bytes: &Vec<u8>)
        ensures
            bytes@ == self.spec_name(),
    {
        &self.name
    }

    /// The signature of the method, as a text for the runtime
    pub fn signature(&self) -> (bytes: &Vec<u8>)
        ensures
            bytes@ == self.spec_signature(),
    {
        &self.signature
    }

    /// The address of the function
    pub fn borrow_ptr(&self) -> (ptr: usize)
        ensures
            ptr == self.addr(),
    {
        self.ptr
    }
}

} // verus!
