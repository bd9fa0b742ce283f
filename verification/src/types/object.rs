//! Handles for the common kinds of object, and the identifiers of methods and
//! fields.
//!
//! A handle holds the address of a reference that the runtime gave out. It is
//! never null, and it cannot outlive the scope its lifetime stands for. The
//! handles can be cast to one another along the hierarchy of the runtime's
//! built-in classes.

use std::marker::PhantomData;
use vstd::prelude::*;
use crate::error::{Error, ErrorView};
use crate::ffi::constants::JNI_ERR;
use crate::text::join;
use crate::types::cast::{IsArray, IsObject, JavaDownCast, JavaUpCast};
use crate::types::jtype::{JNonVoidType, JType};

verus! {

/// A struct representing a Java Method ID. Knows its own return type and the number of args,
/// preventing memory unsafety while calling methods with it
#[derive(Debug, PartialEq, Eq, Structural)]
pub struct JMethodID {
    real_id: usize,
    ret_type: JType,
    num_args: usize,
}

impl JMethodID {
    #[verifier::type_invariant]
    spec fn not_null(self) -> bool {
        self.real_id != 0
    }

    /// The address of the identifier.
    pub closed spec fn addr(&self) -> usize {
        self.real_id
    }

    /// The return type that the identifier was made with.
    pub closed spec fn spec_ret_ty(&self) -> JType {
        self.ret_type
    }

    /// The number of arguments that the identifier was made with.
    pub closed spec fn spec_num_args(&self) -> usize {
        self.num_args
    }

    /// Create a new JMethodID from a raw MethodID, return type, and number of args
    pub fn new(id: usize, ret: JType, num_args: usize) -> (r: Result<JMethodID, Error>)
        ensures
            match r {
                Ok(m) => id != 0 && m.addr() == id && m.spec_ret_ty() == ret && m.spec_num_args()
                    == num_args,
                Err(e) => id == 0 && e@ == ErrorView::NullPointer("JMethodID Constructor"@),
            },
    {
        if id == 0 {
            Err(Error::new_null("JMethodID Constructor"))
        } else {
            Ok(JMethodID { real_id: id, ret_type: ret, num_args })
        }
    }

    /// Get the return type of this method
    #[verifier::when_used_as_spec(spec_ret_ty)]
    pub fn ret_ty(&self) -> (ty: JType)
        ensures
            ty == self.spec_ret_ty(),
    {
        self.ret_type
    }

    /// Get the number of args in this method
    #[verifier::when_used_as_spec(spec_num_args)]
    pub fn num_args(&self) -> (n: usize)
        ensures
            n == self.spec_num_args(),
    {
        self.num_args
    }

    /// Get the backing pointer of this method. The pointer may be used without the
    /// safety provided by this object
    pub fn borrow_ptr(&self) -> (ptr: usize)
        ensures
            ptr == self.addr(),
            ptr != 0,
    {
        proof {
            use_type_invariant(self);
        }
        self.real_id
    }
}

/// A struct representing a Java Field ID. Knows its own type, preventing memory unsafety while
/// calling methods with it
#[derive(Debug, PartialEq, Eq, Structural)]
pub struct JFieldID {
    real_id: usize,
    ty: JNonVoidType,
}

impl JFieldID {
    #[verifier::type_invariant]
    spec fn not_null(self) -> bool {
        self.real_id != 0
    }

    /// The address of the identifier.
    pub closed spec fn addr(&self) -> usize {
        self.real_id
    }

    /// The type that the identifier was made with.
    pub closed spec fn spec_ty(&self) -> JNonVoidType {
        self.ty
    }

    /// Create a new JFieldID from a raw FieldID and type
    pub fn new(id: usize, ty: JNonVoidType) -> (r: Result<JFieldID, Error>)
        ensures
            match r {
                Ok(f) => id != 0 && f.addr() == id && f.spec_ty() == ty,
                Err(e) => id == 0 && e@ == ErrorView::NullPointer("JFieldID Constructor"@),
            },
    {
        if id == 0 {
            Err(Error::new_null("JFieldID Constructor"))
        } else {
            Ok(JFieldID { real_id: id, ty })
        }
    }

    /// Get the type of this field
    #[verifier::when_used_as_spec(spec_ty)]
    pub fn ty(&self) -> (ty: JNonVoidType)
        ensures
            ty == self.spec_ty(),
    {
        self.ty
    }

    /// Get the backing pointer of this field. The pointer may be used without the
    /// safety provided by this object
    pub fn borrow_ptr(&self) -> (ptr: usize)
        ensures
            ptr == self.addr(),
            ptr != 0,
    {
        proof {
            use_type_invariant(self);
        }
        self.real_id
    }
}

/// A handle to any object of the runtime.
#[derive(Debug)]
pub struct JObject<'a> {
    backing_ptr: usize,
    phantom: PhantomData<&'a ()>,
}

impl<'a> JObject<'a> {
    #[verifier::type_invariant]
    spec fn not_null(self) -> bool {
        self.backing_ptr != 0
    }

    /// Create a new instance of this struct from a backing pointer
    pub fn new(ptr: usize) -> (r: Result<JObject<'a>, Error>)
        ensures
            match r {
                Ok(h) => ptr != 0 && h.addr() == ptr,
                Err(e) => ptr == 0 && e@ == ErrorView::NullPointer("JObject Constructor"@),
            },
    {
        if ptr == 0 {
            Err(Error::new_null("JObject Constructor"))
        } else {
            Ok(JObject { backing_ptr: ptr, phantom: PhantomData })
        }
    }

    /// Get the java name associated with this type; empty if none exists
    pub fn get_java_name() -> (name: &'static str)
        ensures
            name@ == "[Ljava/lang/Object;"@,
    {
        "[Ljava/lang/Object;"
    }

    /// Get the backing pointer of this object. The pointer may be used without
    /// the safety provided by this object
    pub fn borrow_ptr(&self) -> (ptr: usize)
        ensures
            ptr == self.addr(),
            ptr != 0,
    {
        proof {
            use_type_invariant(self);
        }
        self.backing_ptr
    }
}

impl<'a> IsObject for JObject<'a> {
    closed spec fn addr(&self) -> usize {
        self.backing_ptr
    }
}

/// A handle to a throwable.
#[derive(Debug)]
pub struct JThrowable<'a> {
    backing_ptr: usize,
    phantom: PhantomData<&'a ()>,
}

impl<'a> JThrowable<'a> {
    #[verifier::type_invariant]
    spec fn not_null(self) -> bool {
        self.backing_ptr != 0
    }

    /// Create a new instance of this struct from a backing pointer
    pub fn new(ptr: usize) -> (r: Result<JThrowable<'a>, Error>)
        ensures
            match r {
                Ok(h) => ptr != 0 && h.addr() == ptr,
                Err(e) => ptr == 0 && e@ == ErrorView::NullPointer("JThrowable Constructor"@),
            },
    {
        if ptr == 0 {
            Err(Error::new_null("JThrowable Constructor"))
        } else {
            Ok(JThrowable { backing_ptr: ptr, phantom: PhantomData })
        }
    }

    /// Get the java name associated with this type; empty if none exists
    pub fn get_java_name() -> (name: &'static str)
        ensures
            name@ == "[Ljava/lang/Throwable;"@,
    {
        "[Ljava/lang/Throwable;"
    }

    /// Get the backing pointer of this object. The pointer may be used without
    /// the safety provided by this object
    pub fn borrow_ptr(&self) -> (ptr: usize)
        ensures
            ptr == self.addr(),
            ptr != 0,
    {
        proof {
            use_type_invariant(self);
        }
        self.backing_ptr
    }
}

impl<'a> IsObject for JThrowable<'a> {
    closed spec fn addr(&self) -> usize {
        self.backing_ptr
    }
}

/// A handle to a class.
#[derive(Debug)]
pub struct JClass<'a> {
    backing_ptr: usize,
    phantom: PhantomData<&'a ()>,
}

impl<'a> JClass<'a> {
    #[verifier::type_invariant]
    spec fn not_null(self) -> bool {
        self.backing_ptr != 0
    }

    /// Create a new instance of this struct from a backing pointer
    pub fn new(ptr: usize) -> (r: Result<JClass<'a>, Error>)
        ensures
            match r {
                Ok(h) => ptr != 0 && h.addr() == ptr,
                Err(e) => ptr == 0 && e@ == ErrorView::NullPointer("JClass Constructor"@),
            },
    {
        if ptr == 0 {
            Err(Error::new_null("JClass Constructor"))
        } else {
            Ok(JClass { backing_ptr: ptr, phantom: PhantomData })
        }
    }

    /// Get the java name associated with this type; empty if none exists
    pub fn get_java_name() -> (name: &'static str)
        ensures
            name@ == "[Ljava/lang/Class;"@,
    {
        "[Ljava/lang/Class;"
    }

    /// Get the backing pointer of this object. The pointer may be used without
    /// the safety provided by this object
    pub fn borrow_ptr(&self) -> (ptr: usize)
        ensures
            ptr == self.addr(),
            ptr != 0,
    {
        proof {
            use_type_invariant(self);
        }
        self.backing_ptr
    }
}

impl<'a> IsObject for JClass<'a> {
    closed spec fn addr(&self) -> usize {
        self.backing_ptr
    }
}

/// A handle to a string.
#[derive(Debug)]
pub struct JString<'a> {
    backing_ptr: usize,
    phantom: PhantomData<&'a ()>,
}

impl<'a> JString<'a> {
    #[verifier::type_invariant]
    spec fn not_null(self) -> bool {
        self.backing_ptr != 0
    }

    /// Create a new instance of this struct from a backing pointer
    pub fn new(ptr: usize) -> (r: Result<JString<'a>, Error>)
        ensures
            match r {
                Ok(h) => ptr != 0 && h.addr() == ptr,
                Err(e) => ptr == 0 && e@ == ErrorView::NullPointer("JString Constructor"@),
            },
    {
        if ptr == 0 {
            Err(Error::new_null("JString Constructor"))
        } else {
            Ok(JString { backing_ptr: ptr, phantom: PhantomData })
        }
    }

    /// Get the java name associated with this type; empty if none exists
    pub fn get_java_name() -> (name: &'static str)
        ensures
            name@ == "[Ljava/lang/String;"@,
    {
        "[Ljava/lang/String;"
    }

    /// Get the backing pointer of this object. The pointer may be used without
    /// the safety provided by this object
    pub fn borrow_ptr(&self) -> (ptr: usize)
        ensures
            ptr == self.addr(),
            ptr != 0,
    {
        proof {
            use_type_invariant(self);
        }
        self.backing_ptr
    }
}

impl<'a> IsObject for JString<'a> {
    closed spec fn addr(&self) -> usize {
        self.backing_ptr
    }
}

/// A handle to a weak reference, which does not keep its target alive.
#[derive(Debug)]
pub struct JWeak<'a> {
    backing_ptr: usize,
    phantom: PhantomData<&'a ()>,
}

impl<'a> JWeak<'a> {
    #[verifier::type_invariant]
    spec fn not_null(self) -> bool {
        self.backing_ptr != 0
    }

    /// Create a new instance of this struct from a backing pointer
    pub fn new(ptr: usize) -> (r: Result<JWeak<'a>, Error>)
        ensures
            match r {
                Ok(h) => ptr != 0 && h.addr() == ptr,
                Err(e) => ptr == 0 && e@ == ErrorView::NullPointer("JWeak Constructor"@),
            },
    {
        if ptr == 0 {
            Err(Error::new_null("JWeak Constructor"))
        } else {
            Ok(JWeak { backing_ptr: ptr, phantom: PhantomData })
        }
    }

    /// Get the java name associated with this type; empty if none exists
    pub fn get_java_name() -> (name: &'static str)
        ensures
            name@ == "[Ljava/lang/ref/WeakReference;"@,
    {
        "[Ljava/lang/ref/WeakReference;"
    }

    /// Get the backing pointer of this object. The pointer may be used without
    /// the safety provided by this object
    pub fn borrow_ptr(&self) -> (ptr: usize)
        ensures
            ptr == self.addr(),
            ptr != 0,
    {
        proof {
            use_type_invariant(self);
        }
        self.backing_ptr
    }
}

impl<'a> IsObject for JWeak<'a> {
    closed spec fn addr(&self) -> usize {
        self.backing_ptr
    }
}

/// A handle to an array of any element type.
#[derive(Debug)]
pub struct JArray<'a> {
    backing_ptr: usize,
    phantom: PhantomData<&'a ()>,
}

impl<'a> JArray<'a> {
    #[verifier::type_invariant]
    spec fn not_null(self) -> bool {
        self.backing_ptr != 0
    }

    /// Create a new instance of this struct from a backing pointer
    pub fn new(ptr: usize) -> (r: Result<JArray<'a>, Error>)
        ensures
            match r {
                Ok(h) => ptr != 0 && h.addr() == ptr,
                Err(e) => ptr == 0 && e@ == ErrorView::NullPointer("JArray Constructor"@),
            },
    {
        if ptr == 0 {
            Err(Error::new_null("JArray Constructor"))
        } else {
            Ok(JArray { backing_ptr: ptr, phantom: PhantomData })
        }
    }

    /// Get the java name associated with this type; empty if none exists
    pub fn get_java_name() -> (name: &'static str)
        ensures
            name@ == ""@,
    {
        ""
    }

    /// Get the backing pointer of this object. The pointer may be used without
    /// the safety provided by this object
    pub fn borrow_ptr(&self) -> (ptr: usize)
        ensures
            ptr == self.addr(),
            ptr != 0,
    {
        proof {
            use_type_invariant(self);
        }
        self.backing_ptr
    }
}

impl<'a> IsObject for JArray<'a> {
    closed spec fn addr(&self) -> usize {
        self.backing_ptr
    }
}

impl<'a> IsArray for JArray<'a> {

}

/// A handle to an array of objects.
#[derive(Debug)]
pub struct JObjectArray<'a> {
    backing_ptr: usize,
    phantom: PhantomData<&'a ()>,
}

impl<'a> JObjectArray<'a> {
    #[verifier::type_invariant]
    spec fn not_null(self) -> bool {
        self.backing_ptr != 0
    }

    /// Create a new instance of this struct from a backing pointer
    pub fn new(ptr: usize) -> (r: Result<JObjectArray<'a>, Error>)
        ensures
            match r {
                Ok(h) => ptr != 0 && h.addr() == ptr,
                Err(e) => ptr == 0 && e@ == ErrorView::NullPointer("JObjectArray Constructor"@),
            },
    {
        if ptr == 0 {
            Err(Error::new_null("JObjectArray Constructor"))
        } else {
            Ok(JObjectArray { backing_ptr: ptr, phantom: PhantomData })
        }
    }

    /// Get the java name associated with this type; empty if none exists
    pub fn get_java_name() -> (name: &'static str)
        ensures
            name@ == "[Ljava/lang/Object;"@,
    {
        "[Ljava/lang/Object;"
    }

    /// Get the backing pointer of this object. The pointer may be used without
    /// the safety provided by this object
    pub fn borrow_ptr(&self) -> (ptr: usize)
        ensures
            ptr == self.addr(),
            ptr != 0,
    {
        proof {
            use_type_invariant(self);
        }
        self.backing_ptr
    }
}

impl<'a> IsObject for JObjectArray<'a> {
    closed spec fn addr(&self) -> usize {
        self.backing_ptr
    }
}

impl<'a> IsArray for JObjectArray<'a> {

}

/// A handle to an array of booleans.
#[derive(Debug)]
pub struct JBooleanArray<'a> {
    backing_ptr: usize,
    phantom: PhantomData<&'a ()>,
}

impl<'a> JBooleanArray<'a> {
    #[verifier::type_invariant]
    spec fn not_null(self) -> bool {
        self.backing_ptr != 0
    }

    /// Create a new instance of this struct from a backing pointer
    pub fn new(ptr: usize) -> (r: Result<JBooleanArray<'a>, Error>)
        ensures
            match r {
                Ok(h) => ptr != 0 && h.addr() == ptr,
                Err(e) => ptr == 0 && e@ == ErrorView::NullPointer("JBooleanArray Constructor"@),
            },
    {
        if ptr == 0 {
            Err(Error::new_null("JBooleanArray Constructor"))
        } else {
            Ok(JBooleanArray { backing_ptr: ptr, phantom: PhantomData })
        }
    }

    /// Get the java name associated with this type; empty if none exists
    pub fn get_java_name() -> (name: &'static str)
        ensures
            name@ == "[Z"@,
    {
        "[Z"
    }

    /// Get the backing pointer of this object. The pointer may be used without
    /// the safety provided by this object
    pub fn borrow_ptr(&self) -> (ptr: usize)
        ensures
            ptr == self.addr(),
            ptr != 0,
    {
        proof {
            use_type_invariant(self);
        }
        self.backing_ptr
    }
}

impl<'a> IsObject for JBooleanArray<'a> {
    closed spec fn addr(&self) -> usize {
        self.backing_ptr
    }
}

impl<'a> IsArray for JBooleanArray<'a> {

}

/// A handle to an array of bytes.
#[derive(Debug)]
pub struct JByteArray<'a> {
    backing_ptr: usize,
    phantom: PhantomData<&'a ()>,
}

impl<'a> JByteArray<'a> {
    #[verifier::type_invariant]
    spec fn not_null(self) -> bool {
        self.backing_ptr != 0
    }

    /// Create a new instance of this struct from a backing pointer
    pub fn new(ptr: usize) -> (r: Result<JByteArray<'a>, Error>)
        ensures
            match r {
                Ok(h) => ptr != 0 && h.addr() == ptr,
                Err(e) => ptr == 0 && e@ == ErrorView::NullPointer("JByteArray Constructor"@),
            },
    {
        if ptr == 0 {
            Err(Error::new_null("JByteArray Constructor"))
        } else {
            Ok(JByteArray { backing_ptr: ptr, phantom: PhantomData })
        }
    }

    /// Get the java name associated with this type; empty if none exists
    pub fn get_java_name() -> (name: &'static str)
        ensures
            name@ == "[B"@,
    {
        "[B"
    }

    /// Get the backing pointer of this object. The pointer may be used without
    /// the safety provided by this object
    pub fn borrow_ptr(&self) -> (ptr: usize)
        ensures
            ptr == self.addr(),
            ptr != 0,
    {
        proof {
            use_type_invariant(self);
        }
        self.backing_ptr
    }
}

impl<'a> IsObject for JByteArray<'a> {
    closed spec fn addr(&self) -> usize {
        self.backing_ptr
    }
}

impl<'a> IsArray for JByteArray<'a> {

}

/// A handle to an array of chars.
#[derive(Debug)]
pub struct JCharArray<'a> {
    backing_ptr: usize,
    phantom: PhantomData<&'a ()>,
}

impl<'a> JCharArray<'a> {
    #[verifier::type_invariant]
    spec fn not_null(self) -> bool {
        self.backing_ptr != 0
    }

    /// Create a new instance of this struct from a backing pointer
    pub fn new(ptr: usize) -> (r: Result<JCharArray<'a>, Error>)
        ensures
            match r {
                Ok(h) => ptr != 0 && h.addr() == ptr,
                Err(e) => ptr == 0 && e@ == ErrorView::NullPointer("JCharArray Constructor"@),
            },
    {
        if ptr == 0 {
            Err(Error::new_null("JCharArray Constructor"))
        } else {
            Ok(JCharArray { backing_ptr: ptr, phantom: PhantomData })
        }
    }

    /// Get the java name associated with this type; empty if none exists
    pub fn get_java_name() -> (name: &'static str)
        ensures
            name@ == "[C"@,
    {
        "[C"
    }

    /// Get the backing pointer of this object. The pointer may be used without
    /// the safety provided by this object
    pub fn borrow_ptr(&self) -> (ptr: usize)
        ensures
            ptr == self.addr(),
            ptr != 0,
    {
        proof {
            use_type_invariant(self);
        }
        self.backing_ptr
    }
}

impl<'a> IsObject for JCharArray<'a> {
    closed spec fn addr(&self) -> usize {
        self.backing_ptr
    }
}

impl<'a> IsArray for JCharArray<'a> {

}

/// A handle to an array of shorts.
#[derive(Debug)]
pub struct JShortArray<'a> {
    backing_ptr: usize,
    phantom: PhantomData<&'a ()>,
}

impl<'a> JShortArray<'a> {
    #[verifier::type_invariant]
    spec fn not_null(self) -> bool {
        self.backing_ptr != 0
    }

    /// Create a new instance of this struct from a backing pointer
    pub fn new(ptr: usize) -> (r: Result<JShortArray<'a>, Error>)
        ensures
            match r {
                Ok(h) => ptr != 0 && h.addr() == ptr,
                Err(e) => ptr == 0 && e@ == ErrorView::NullPointer("JShortArray Constructor"@),
            },
    {
        if ptr == 0 {
            Err(Error::new_null("JShortArray Constructor"))
        } else {
            Ok(JShortArray { backing_ptr: ptr, phantom: PhantomData })
        }
    }

    /// Get the java name associated with this type; empty if none exists
    pub fn get_java_name() -> (name: &'static str)
        ensures
            name@ == "[S"@,
    {
        "[S"
    }

    /// Get the backing pointer of this object. The pointer may be used without
    /// the safety provided by this object
    pub fn borrow_ptr(&self) -> (ptr: usize)
        ensures
            ptr == self.addr(),
            ptr != 0,
    {
        proof {
            use_type_invariant(self);
        }
        self.backing_ptr
    }
}

impl<'a> IsObject for JShortArray<'a> {
    closed spec fn addr(&self) -> usize {
        self.backing_ptr
    }
}

impl<'a> IsArray for JShortArray<'a> {

}

/// A handle to an array of ints.
#[derive(Debug)]
pub struct JIntArray<'a> {
    backing_ptr: usize,
    phantom: PhantomData<&'a ()>,
}

impl<'a> JIntArray<'a> {
    #[verifier::type_invariant]
    spec fn not_null(self) -> bool {
        self.backing_ptr != 0
    }

    /// Create a new instance of this struct from a backing pointer
    pub fn new(ptr: usize) -> (r: Result<JIntArray<'a>, Error>)
        ensures
            match r {
                Ok(h) => ptr != 0 && h.addr() == ptr,
                Err(e) => ptr == 0 && e@ == ErrorView::NullPointer("JIntArray Constructor"@),
            },
    {
        if ptr == 0 {
            Err(Error::new_null("JIntArray Constructor"))
        } else {
            Ok(JIntArray { backing_ptr: ptr, phantom: PhantomData })
        }
    }

    /// Get the java name associated with this type; empty if none exists
    pub fn get_java_name() -> (name: &'static str)
        ensures
            name@ == "[I"@,
    {
        "[I"
    }

    /// Get the backing pointer of this object. The pointer may be used without
    /// the safety provided by this object
    pub fn borrow_ptr(&self) -> (ptr: usize)
        ensures
            ptr == self.addr(),
            ptr != 0,
    {
        proof {
            use_type_invariant(self);
        }
        self.backing_ptr
    }
}

impl<'a> IsObject for JIntArray<'a> {
    closed spec fn addr(&self) -> usize {
        self.backing_ptr
    }
}

impl<'a> IsArray for JIntArray<'a> {

}

/// A handle to an array of longs.
#[derive(Debug)]
pub struct JLongArray<'a> {
    backing_ptr: usize,
    phantom: PhantomData<&'a ()>,
}

impl<'a> JLongArray<'a> {
    #[verifier::type_invariant]
    spec fn not_null(self) -> bool {
        self.backing_ptr != 0
    }

    /// Create a new instance of this struct from a backing pointer
    pub fn new(ptr: usize) -> (r: Result<JLongArray<'a>, Error>)
        ensures
            match r {
                Ok(h) => ptr != 0 && h.addr() == ptr,
                Err(e) => ptr == 0 && e@ == ErrorView::NullPointer("JLongArray Constructor"@),
            },
    {
        if ptr == 0 {
            Err(Error::new_null("JLongArray Constructor"))
        } else {
            Ok(JLongArray { backing_ptr: ptr, phantom: PhantomData })
        }
    }

    /// Get the java name associated with this type; empty if none exists
    pub fn get_java_name() -> (name: &'static str)
        ensures
            name@ == "[J"@,
    {
        "[J"
    }

    /// Get the backing pointer of this object. The pointer may be used without
    /// the safety provided by this object
    pub fn borrow_ptr(&self) -> (ptr: usize)
        ensures
            ptr == self.addr(),
            ptr != 0,
    {
        proof {
            use_type_invariant(self);
        }
        self.backing_ptr
    }
}

impl<'a> IsObject for JLongArray<'a> {
    closed spec fn addr(&self) -> usize {
        self.backing_ptr
    }
}

impl<'a> IsArray for JLongArray<'a> {

}

/// A handle to an array of floats.
#[derive(Debug)]
pub struct JFloatArray<'a> {
    backing_ptr: usize,
    phantom: PhantomData<&'a ()>,
}

impl<'a> JFloatArray<'a> {
    #[verifier::type_invariant]
    spec fn not_null(self) -> bool {
        self.backing_ptr != 0
    }

    /// Create a new instance of this struct from a backing pointer
    pub fn new(ptr: usize) -> (r: Result<JFloatArray<'a>, Error>)
        ensures
            match r {
                Ok(h) => ptr != 0 && h.addr() == ptr,
                Err(e) => ptr == 0 && e@ == ErrorView::NullPointer("JFloatArray Constructor"@),
            },
    {
        if ptr == 0 {
            Err(Error::new_null("JFloatArray Constructor"))
        } else {
            Ok(JFloatArray { backing_ptr: ptr, phantom: PhantomData })
        }
    }

    /// Get the java name associated with this type; empty if none exists
    pub fn get_java_name() -> (name: &'static str)
        ensures
            name@ == "[F"@,
    {
        "[F"
    }

    /// Get the backing pointer of this object. The pointer may be used without
    /// the safety provided by this object
    pub fn borrow_ptr(&self) -> (ptr: usize)
        ensures
            ptr == self.addr(),
            ptr != 0,
    {
        proof {
            use_type_invariant(self);
        }
        self.backing_ptr
    }
}

impl<'a> IsObject for JFloatArray<'a> {
    closed spec fn addr(&self) -> usize {
        self.backing_ptr
    }
}

impl<'a> IsArray for JFloatArray<'a> {

}

/// A handle to an array of doubles.
#[derive(Debug)]
pub struct JDoubleArray<'a> {
    backing_ptr: usize,
    phantom: PhantomData<&'a ()>,
}

impl<'a> JDoubleArray<'a> {
    #[verifier::type_invariant]
    spec fn not_null(self) -> bool {
        self.backing_ptr != 0
    }

    /// Create a new instance of this struct from a backing pointer
    pub fn new(ptr: usize) -> (r: Result<JDoubleArray<'a>, Error>)
        ensures
            match r {
                Ok(h) => ptr != 0 && h.addr() == ptr,
                Err(e) => ptr == 0 && e@ == ErrorView::NullPointer("JDoubleArray Constructor"@),
            },
    {
        if ptr == 0 {
            Err(Error::new_null("JDoubleArray Constructor"))
        } else {
            Ok(JDoubleArray { backing_ptr: ptr, phantom: PhantomData })
        }
    }

    /// Get the java name associated with this type; empty if none exists
    pub fn get_java_name() -> (name: &'static str)
        ensures
            name@ == "[D"@,
    {
        "[D"
    }

    /// Get the backing pointer of this object. The pointer may be used without
    /// the safety provided by this object
    pub fn borrow_ptr(&self) -> (ptr: usize)
        ensures
            ptr == self.addr(),
            ptr != 0,
    {
        proof {
            use_type_invariant(self);
        }
        self.backing_ptr
    }
}

impl<'a> IsObject for JDoubleArray<'a> {
    closed spec fn addr(&self) -> usize {
        self.backing_ptr
    }
}

impl<'a> IsArray for JDoubleArray<'a> {

}

impl<'a> JavaDownCast<JObject<'a>> for JThrowable<'a> {
    closed spec fn cast(self) -> JObject<'a> {
        JObject { backing_ptr: self.backing_ptr, phantom: PhantomData }
    }

    proof fn cast_keeps_address(self) {
    }

    fn downcast(self) -> (r: JObject<'a>) {
        proof {
            use_type_invariant(&self);
        }
        JObject { backing_ptr: self.backing_ptr, phantom: PhantomData }
    }
}

impl<'a, 'b> JavaDownCast<JObject<'b>> for &'b JThrowable<'a> {
    closed spec fn cast(self) -> JObject<'b> {
        JObject { backing_ptr: self.backing_ptr, phantom: PhantomData }
    }

    proof fn cast_keeps_address(self) {
    }

    fn downcast(self) -> (r: JObject<'b>) {
        proof {
            use_type_invariant(self);
        }
        JObject { backing_ptr: self.backing_ptr, phantom: PhantomData }
    }
}

impl<'a> JavaDownCast<JObject<'a>> for JClass<'a> {
    closed spec fn cast(self) -> JObject<'a> {
        JObject { backing_ptr: self.backing_ptr, phantom: PhantomData }
    }

    proof fn cast_keeps_address(self) {
    }

    fn downcast(self) -> (r: JObject<'a>) {
        proof {
            use_type_invariant(&self);
        }
        JObject { backing_ptr: self.backing_ptr, phantom: PhantomData }
    }
}

impl<'a, 'b> JavaDownCast<JObject<'b>> for &'b JClass<'a> {
    closed spec fn cast(self) -> JObject<'b> {
        JObject { backing_ptr: self.backing_ptr, phantom: PhantomData }
    }

    proof fn cast_keeps_address(self) {
    }

    fn downcast(self) -> (r: JObject<'b>) {
        proof {
            use_type_invariant(self);
        }
        JObject { backing_ptr: self.backing_ptr, phantom: PhantomData }
    }
}

impl<'a> JavaDownCast<JObject<'a>> for JString<'a> {
    closed spec fn cast(self) -> JObject<'a> {
        JObject { backing_ptr: self.backing_ptr, phantom: PhantomData }
    }

    proof fn cast_keeps_address(self) {
    }

    fn downcast(self) -> (r: JObject<'a>) {
        proof {
            use_type_invariant(&self);
        }
        JObject { backing_ptr: self.backing_ptr, phantom: PhantomData }
    }
}

impl<'a, 'b> JavaDownCast<JObject<'b>> for &'b JString<'a> {
    closed spec fn cast(self) -> JObject<'b> {
        JObject { backing_ptr: self.backing_ptr, phantom: PhantomData }
    }

    proof fn cast_keeps_address(self) {
    }

    fn downcast(self) -> (r: JObject<'b>) {
        proof {
            use_type_invariant(self);
        }
        JObject { backing_ptr: self.backing_ptr, phantom: PhantomData }
    }
}

impl<'a> JavaDownCast<JObject<'a>> for JArray<'a> {
    closed spec fn cast(self) -> JObject<'a> {
        JObject { backing_ptr: self.backing_ptr, phantom: PhantomData }
    }

    proof fn cast_keeps_address(self) {
    }

    fn downcast(self) -> (r: JObject<'a>) {
        proof {
            use_type_invariant(&self);
        }
        JObject { backing_ptr: self.backing_ptr, phantom: PhantomData }
    }
}

impl<'a, 'b> JavaDownCast<JObject<'b>> for &'b JArray<'a> {
    closed spec fn cast(self) -> JObject<'b> {
        JObject { backing_ptr: self.backing_ptr, phantom: PhantomData }
    }

    proof fn cast_keeps_address(self) {
    }

    fn downcast(self) -> (r: JObject<'b>) {
        proof {
            use_type_invariant(self);
        }
        JObject { backing_ptr: self.backing_ptr, phantom: PhantomData }
    }
}

impl<'a> JavaDownCast<JObject<'a>> for JObjectArray<'a> {
    closed spec fn cast(self) -> JObject<'a> {
        JObject { backing_ptr: self.backing_ptr, phantom: PhantomData }
    }

    proof fn cast_keeps_address(self) {
    }

    fn downcast(self) -> (r: JObject<'a>) {
        proof {
            use_type_invariant(&self);
        }
        JObject { backing_ptr: self.backing_ptr, phantom: PhantomData }
    }
}

impl<'a, 'b> JavaDownCast<JObject<'b>> for &'b JObjectArray<'a> {
    closed spec fn cast(self) -> JObject<'b> {
        JObject { backing_ptr: self.backing_ptr, phantom: PhantomData }
    }

    proof fn cast_keeps_address(self) {
    }

    fn downcast(self) -> (r: JObject<'b>) {
        proof {
            use_type_invariant(self);
        }
        JObject { backing_ptr: self.backing_ptr, phantom: PhantomData }
    }
}

impl<'a> JavaDownCast<JArray<'a>> for JObjectArray<'a> {
    closed spec fn cast(self) -> JArray<'a> {
        JArray { backing_ptr: self.backing_ptr, phantom: PhantomData }
    }

    proof fn cast_keeps_address(self) {
    }

    fn downcast(self) -> (r: JArray<'a>) {
        proof {
            use_type_invariant(&self);
        }
        JArray { backing_ptr: self.backing_ptr, phantom: PhantomData }
    }
}

impl<'a, 'b> JavaDownCast<JArray<'b>> for &'b JObjectArray<'a> {
    closed spec fn cast(self) -> JArray<'b> {
        JArray { backing_ptr: self.backing_ptr, phantom: PhantomData }
    }

    proof fn cast_keeps_address(self) {
    }

    fn downcast(self) -> (r: JArray<'b>) {
        proof {
            use_type_invariant(self);
        }
        JArray { backing_ptr: self.backing_ptr, phantom: PhantomData }
    }
}

impl<'a> JavaDownCast<JObject<'a>> for JBooleanArray<'a> {
    closed spec fn cast(self) -> JObject<'a> {
        JObject { backing_ptr: self.backing_ptr, phantom: PhantomData }
    }

    proof fn cast_keeps_address(self) {
    }

    fn downcast(self) -> (r: JObject<'a>) {
        proof {
            use_type_invariant(&self);
        }
        JObject { backing_ptr: self.backing_ptr, phantom: PhantomData }
    }
}

impl<'a, 'b> JavaDownCast<JObject<'b>> for &'b JBooleanArray<'a> {
    closed spec fn cast(self) -> JObject<'b> {
        JObject { backing_ptr: self.backing_ptr, phantom: PhantomData }
    }

    proof fn cast_keeps_address(self) {
    }

    fn downcast(self) -> (r: JObject<'b>) {
        proof {
            use_type_invariant(self);
        }
        JObject { backing_ptr: self.backing_ptr, phantom: PhantomData }
    }
}

impl<'a> JavaDownCast<JArray<'a>> for JBooleanArray<'a> {
    closed spec fn cast(self) -> JArray<'a> {
        JArray { backing_ptr: self.backing_ptr, phantom: PhantomData }
    }

    proof fn cast_keeps_address(self) {
    }

    fn downcast(self) -> (r: JArray<'a>) {
        proof {
            use_type_invariant(&self);
        }
        JArray { backing_ptr: self.backing_ptr, phantom: PhantomData }
    }
}

impl<'a, 'b> JavaDownCast<JArray<'b>> for &'b JBooleanArray<'a> {
    closed spec fn cast(self) -> JArray<'b> {
        JArray { backing_ptr: self.backing_ptr, phantom: PhantomData }
    }

    proof fn cast_keeps_address(self) {
    }

    fn downcast(self) -> (r: JArray<'b>) {
        proof {
            use_type_invariant(self);
        }
        JArray { backing_ptr: self.backing_ptr, phantom: PhantomData }
    }
}

impl<'a> JavaDownCast<JObject<'a>> for JByteArray<'a> {
    closed spec fn cast(self) -> JObject<'a> {
        JObject { backing_ptr: self.backing_ptr, phantom: PhantomData }
    }

    proof fn cast_keeps_address(self) {
    }

    fn downcast(self) -> (r: JObject<'a>) {
        proof {
            use_type_invariant(&self);
        }
        JObject { backing_ptr: self.backing_ptr, phantom: PhantomData }
    }
}

impl<'a, 'b> JavaDownCast<JObject<'b>> for &'b JByteArray<'a> {
    closed spec fn cast(self) -> JObject<'b> {
        JObject { backing_ptr: self.backing_ptr, phantom: PhantomData }
    }

    proof fn cast_keeps_address(self) {
    }

    fn downcast(self) -> (r: JObject<'b>) {
        proof {
            use_type_invariant(self);
        }
        JObject { backing_ptr: self.backing_ptr, phantom: PhantomData }
    }
}

impl<'a> JavaDownCast<JArray<'a>> for JByteArray<'a> {
    closed spec fn cast(self) -> JArray<'a> {
        JArray { backing_ptr: self.backing_ptr, phantom: PhantomData }
    }

    proof fn cast_keeps_address(self) {
    }

    fn downcast(self) -> (r: JArray<'a>) {
        proof {
            use_type_invariant(&self);
        }
        JArray { backing_ptr: self.backing_ptr, phantom: PhantomData }
    }
}

impl<'a, 'b> JavaDownCast<JArray<'b>> for &'b JByteArray<'a> {
    closed spec fn cast(self) -> JArray<'b> {
        JArray { backing_ptr: self.backing_ptr, phantom: PhantomData }
    }

    proof fn cast_keeps_address(self) {
    }

    fn downcast(self) -> (r: JArray<'b>) {
        proof {
            use_type_invariant(self);
        }
        JArray { backing_ptr: self.backing_ptr, phantom: PhantomData }
    }
}

impl<'a> JavaDownCast<JObject<'a>> for JCharArray<'a> {
    closed spec fn cast(self) -> JObject<'a> {
        JObject { backing_ptr: self.backing_ptr, phantom: PhantomData }
    }

    proof fn cast_keeps_address(self) {
    }

    fn downcast(self) -> (r: JObject<'a>) {
        proof {
            use_type_invariant(&self);
        }
        JObject { backing_ptr: self.backing_ptr, phantom: PhantomData }
    }
}

impl<'a, 'b> JavaDownCast<JObject<'b>> for &'b JCharArray<'a> {
    closed spec fn cast(self) -> JObject<'b> {
        JObject { backing_ptr: self.backing_ptr, phantom: PhantomData }
    }

    proof fn cast_keeps_address(self) {
    }

    fn downcast(self) -> (r: JObject<'b>) {
        proof {
            use_type_invariant(self);
        }
        JObject { backing_ptr: self.backing_ptr, phantom: PhantomData }
    }
}

impl<'a> JavaDownCast<JArray<'a>> for JCharArray<'a> {
    closed spec fn cast(self) -> JArray<'a> {
        JArray { backing_ptr: self.backing_ptr, phantom: PhantomData }
    }

    proof fn cast_keeps_address(self) {
    }

    fn downcast(self) -> (r: JArray<'a>) {
        proof {
            use_type_invariant(&self);
        }
        JArray { backing_ptr: self.backing_ptr, phantom: PhantomData }
    }
}

impl<'a, 'b> JavaDownCast<JArray<'b>> for &'b JCharArray<'a> {
    closed spec fn cast(self) -> JArray<'b> {
        JArray { backing_ptr: self.backing_ptr, phantom: PhantomData }
    }

    proof fn cast_keeps_address(self) {
    }

    fn downcast(self) -> (r: JArray<'b>) {
        proof {
            use_type_invariant(self);
        }
        JArray { backing_ptr: self.backing_ptr, phantom: PhantomData }
    }
}

impl<'a> JavaDownCast<JObject<'a>> for JShortArray<'a> {
    closed spec fn cast(self) -> JObject<'a> {
        JObject { backing_ptr: self.backing_ptr, phantom: PhantomData }
    }

    proof fn cast_keeps_address(self) {
    }

    fn downcast(self) -> (r: JObject<'a>) {
        proof {
            use_type_invariant(&self);
        }
        JObject { backing_ptr: self.backing_ptr, phantom: PhantomData }
    }
}

impl<'a, 'b> JavaDownCast<JObject<'b>> for &'b JShortArray<'a> {
    closed spec fn cast(self) -> JObject<'b> {
        JObject { backing_ptr: self.backing_ptr, phantom: PhantomData }
    }

    proof fn cast_keeps_address(self) {
    }

    fn downcast(self) -> (r: JObject<'b>) {
        proof {
            use_type_invariant(self);
        }
        JObject { backing_ptr: self.backing_ptr, phantom: PhantomData }
    }
}

impl<'a> JavaDownCast<JArray<'a>> for JShortArray<'a> {
    closed spec fn cast(self) -> JArray<'a> {
        JArray { backing_ptr: self.backing_ptr, phantom: PhantomData }
    }

    proof fn cast_keeps_address(self) {
    }

    fn downcast(self) -> (r: JArray<'a>) {
        proof {
            use_type_invariant(&self);
        }
        JArray { backing_ptr: self.backing_ptr, phantom: PhantomData }
    }
}

impl<'a, 'b> JavaDownCast<JArray<'b>> for &'b JShortArray<'a> {
    closed spec fn cast(self) -> JArray<'b> {
        JArray { backing_ptr: self.backing_ptr, phantom: PhantomData }
    }

    proof fn cast_keeps_address(self) {
    }

    fn downcast(self) -> (r: JArray<'b>) {
        proof {
            use_type_invariant(self);
        }
        JArray { backing_ptr: self.backing_ptr, phantom: PhantomData }
    }
}

impl<'a> JavaDownCast<JObject<'a>> for JIntArray<'a> {
    closed spec fn cast(self) -> JObject<'a> {
        JObject { backing_ptr: self.backing_ptr, phantom: PhantomData }
    }

    proof fn cast_keeps_address(self) {
    }

    fn downcast(self) -> (r: JObject<'a>) {
        proof {
            use_type_invariant(&self);
        }
        JObject { backing_ptr: self.backing_ptr, phantom: PhantomData }
    }
}

impl<'a, 'b> JavaDownCast<JObject<'b>> for &'b JIntArray<'a> {
    closed spec fn cast(self) -> JObject<'b> {
        JObject { backing_ptr: self.backing_ptr, phantom: PhantomData }
    }

    proof fn cast_keeps_address(self) {
    }

    fn downcast(self) -> (r: JObject<'b>) {
        proof {
            use_type_invariant(self);
        }
        JObject { backing_ptr: self.backing_ptr, phantom: PhantomData }
    }
}

impl<'a> JavaDownCast<JArray<'a>> for JIntArray<'a> {
    closed spec fn cast(self) -> JArray<'a> {
        JArray { backing_ptr: self.backing_ptr, phantom: PhantomData }
    }

    proof fn cast_keeps_address(self) {
    }

    fn downcast(self) -> (r: JArray<'a>) {
        proof {
            use_type_invariant(&self);
        }
        JArray { backing_ptr: self.backing_ptr, phantom: PhantomData }
    }
}

impl<'a, 'b> JavaDownCast<JArray<'b>> for &'b JIntArray<'a> {
    closed spec fn cast(self) -> JArray<'b> {
        JArray { backing_ptr: self.backing_ptr, phantom: PhantomData }
    }

    proof fn cast_keeps_address(self) {
    }

    fn downcast(self) -> (r: JArray<'b>) {
        proof {
            use_type_invariant(self);
        }
        JArray { backing_ptr: self.backing_ptr, phantom: PhantomData }
    }
}

impl<'a> JavaDownCast<JObject<'a>> for JLongArray<'a> {
    closed spec fn cast(self) -> JObject<'a> {
        JObject { backing_ptr: self.backing_ptr, phantom: PhantomData }
    }

    proof fn cast_keeps_address(self) {
    }

    fn downcast(self) -> (r: JObject<'a>) {
        proof {
            use_type_invariant(&self);
        }
        JObject { backing_ptr: self.backing_ptr, phantom: PhantomData }
    }
}

impl<'a, 'b> JavaDownCast<JObject<'b>> for &'b JLongArray<'a> {
    closed spec fn cast(self) -> JObject<'b> {
        JObject { backing_ptr: self.backing_ptr, phantom: PhantomData }
    }

    proof fn cast_keeps_address(self) {
    }

    fn downcast(self) -> (r: JObject<'b>) {
        proof {
            use_type_invariant(self);
        }
        JObject { backing_ptr: self.backing_ptr, phantom: PhantomData }
    }
}

impl<'a> JavaDownCast<JArray<'a>> for JLongArray<'a> {
    closed spec fn cast(self) -> JArray<'a> {
        JArray { backing_ptr: self.backing_ptr, phantom: PhantomData }
    }

    proof fn cast_keeps_address(self) {
    }

    fn downcast(self) -> (r: JArray<'a>) {
        proof {
            use_type_invariant(&self);
        }
        JArray { backing_ptr: self.backing_ptr, phantom: PhantomData }
    }
}

impl<'a, 'b> JavaDownCast<JArray<'b>> for &'b JLongArray<'a> {
    closed spec fn cast(self) -> JArray<'b> {
        JArray { backing_ptr: self.backing_ptr, phantom: PhantomData }
    }

    proof fn cast_keeps_address(self) {
    }

    fn downcast(self) -> (r: JArray<'b>) {
        proof {
            use_type_invariant(self);
        }
        JArray { backing_ptr: self.backing_ptr, phantom: PhantomData }
    }
}

impl<'a> JavaDownCast<JObject<'a>> for JFloatArray<'a> {
    closed spec fn cast(self) -> JObject<'a> {
        JObject { backing_ptr: self.backing_ptr, phantom: PhantomData }
    }

    proof fn cast_keeps_address(self) {
    }

    fn downcast(self) -> (r: JObject<'a>) {
        proof {
            use_type_invariant(&self);
        }
        JObject { backing_ptr: self.backing_ptr, phantom: PhantomData }
    }
}

impl<'a, 'b> JavaDownCast<JObject<'b>> for &'b JFloatArray<'a> {
    closed spec fn cast(self) -> JObject<'b> {
        JObject { backing_ptr: self.backing_ptr, phantom: PhantomData }
    }

    proof fn cast_keeps_address(self) {
    }

    fn downcast(self) -> (r: JObject<'b>) {
        proof {
            use_type_invariant(self);
        }
        JObject { backing_ptr: self.backing_ptr, phantom: PhantomData }
    }
}

impl<'a> JavaDownCast<JArray<'a>> for JFloatArray<'a> {
    closed spec fn cast(self) -> JArray<'a> {
        JArray { backing_ptr: self.backing_ptr, phantom: PhantomData }
    }

    proof fn cast_keeps_address(self) {
    }

    fn downcast(self) -> (r: JArray<'a>) {
        proof {
            use_type_invariant(&self);
        }
        JArray { backing_ptr: self.backing_ptr, phantom: PhantomData }
    }
}

impl<'a, 'b> JavaDownCast<JArray<'b>> for &'b JFloatArray<'a> {
    closed spec fn cast(self) -> JArray<'b> {
        JArray { backing_ptr: self.backing_ptr, phantom: PhantomData }
    }

    proof fn cast_keeps_address(self) {
    }

    fn downcast(self) -> (r: JArray<'b>) {
        proof {
            use_type_invariant(self);
        }
        JArray { backing_ptr: self.backing_ptr, phantom: PhantomData }
    }
}

impl<'a> JavaDownCast<JObject<'a>> for JDoubleArray<'a> {
    closed spec fn cast(self) -> JObject<'a> {
        JObject { backing_ptr: self.backing_ptr, phantom: PhantomData }
    }

    proof fn cast_keeps_address(self) {
    }

    fn downcast(self) -> (r: JObject<'a>) {
        proof {
            use_type_invariant(&self);
        }
        JObject { backing_ptr: self.backing_ptr, phantom: PhantomData }
    }
}

impl<'a, 'b> JavaDownCast<JObject<'b>> for &'b JDoubleArray<'a> {
    closed spec fn cast(self) -> JObject<'b> {
        JObject { backing_ptr: self.backing_ptr, phantom: PhantomData }
    }

    proof fn cast_keeps_address(self) {
    }

    fn downcast(self) -> (r: JObject<'b>) {
        proof {
            use_type_invariant(self);
        }
        JObject { backing_ptr: self.backing_ptr, phantom: PhantomData }
    }
}

impl<'a> JavaDownCast<JArray<'a>> for JDoubleArray<'a> {
    closed spec fn cast(self) -> JArray<'a> {
        JArray { backing_ptr: self.backing_ptr, phantom: PhantomData }
    }

    proof fn cast_keeps_address(self) {
    }

    fn downcast(self) -> (r: JArray<'a>) {
        proof {
            use_type_invariant(&self);
        }
        JArray { backing_ptr: self.backing_ptr, phantom: PhantomData }
    }
}

impl<'a, 'b> JavaDownCast<JArray<'b>> for &'b JDoubleArray<'a> {
    closed spec fn cast(self) -> JArray<'b> {
        JArray { backing_ptr: self.backing_ptr, phantom: PhantomData }
    }

    proof fn cast_keeps_address(self) {
    }

    fn downcast(self) -> (r: JArray<'b>) {
        proof {
            use_type_invariant(self);
        }
        JArray { backing_ptr: self.backing_ptr, phantom: PhantomData }
    }
}

impl<'a> JavaUpCast<JThrowable<'a>> for JObject<'a> {
    closed spec fn recast(self) -> JThrowable<'a> {
        JThrowable { backing_ptr: self.backing_ptr, phantom: PhantomData }
    }

    proof fn recast_keeps_address(self) {
    }

    open spec fn target_name() -> Option<Seq<char>> {
        Some("[Ljava/lang/Throwable;"@)
    }

    fn target_class() -> (name: Option<&'static str>) {
        Some("[Ljava/lang/Throwable;")
    }

    fn upcast(self, assignable: bool) -> (r: Result<JThrowable<'a>, Error>) {
        if assignable {
            proof {
                use_type_invariant(&self);
            }
            Ok(JThrowable { backing_ptr: self.backing_ptr, phantom: PhantomData })
        } else {
            let msg = join("Can't assign to type ", "[Ljava/lang/Throwable;");
            Err(Error::new(msg.as_str(), JNI_ERR))
        }
    }

    fn upcast_raw(self) -> (r: JThrowable<'a>) {
        proof {
            use_type_invariant(&self);
        }
        JThrowable { backing_ptr: self.backing_ptr, phantom: PhantomData }
    }
}

impl<'a, 'b> JavaUpCast<JThrowable<'b>> for &'b JObject<'a> {
    closed spec fn recast(self) -> JThrowable<'b> {
        JThrowable { backing_ptr: self.backing_ptr, phantom: PhantomData }
    }

    proof fn recast_keeps_address(self) {
    }

    open spec fn target_name() -> Option<Seq<char>> {
        Some("[Ljava/lang/Throwable;"@)
    }

    fn target_class() -> (name: Option<&'static str>) {
        Some("[Ljava/lang/Throwable;")
    }

    fn upcast(self, assignable: bool) -> (r: Result<JThrowable<'b>, Error>) {
        if assignable {
            proof {
                use_type_invariant(self);
            }
            Ok(JThrowable { backing_ptr: self.backing_ptr, phantom: PhantomData })
        } else {
            let msg = join("Can't assign to type ", "[Ljava/lang/Throwable;");
            Err(Error::new(msg.as_str(), JNI_ERR))
        }
    }

    fn upcast_raw(self) -> (r: JThrowable<'b>) {
        proof {
            use_type_invariant(self);
        }
        JThrowable { backing_ptr: self.backing_ptr, phantom: PhantomData }
    }
}

impl<'a> JavaUpCast<JClass<'a>> for JObject<'a> {
    closed spec fn recast(self) -> JClass<'a> {
        JClass { backing_ptr: self.backing_ptr, phantom: PhantomData }
    }

    proof fn recast_keeps_address(self) {
    }

    open spec fn target_name() -> Option<Seq<char>> {
        Some("[Ljava/lang/Class;"@)
    }

    fn target_class() -> (name: Option<&'static str>) {
        Some("[Ljava/lang/Class;")
    }

    fn upcast(self, assignable: bool) -> (r: Result<JClass<'a>, Error>) {
        if assignable {
            proof {
                use_type_invariant(&self);
            }
            Ok(JClass { backing_ptr: self.backing_ptr, phantom: PhantomData })
        } else {
            let msg = join("Can't assign to type ", "[Ljava/lang/Class;");
            Err(Error::new(msg.as_str(), JNI_ERR))
        }
    }

    fn upcast_raw(self) -> (r: JClass<'a>) {
        proof {
            use_type_invariant(&self);
        }
        JClass { backing_ptr: self.backing_ptr, phantom: PhantomData }
    }
}

impl<'a, 'b> JavaUpCast<JClass<'b>> for &'b JObject<'a> {
    closed spec fn recast(self) -> JClass<'b> {
        JClass { backing_ptr: self.backing_ptr, phantom: PhantomData }
    }

    proof fn recast_keeps_address(self) {
    }

    open spec fn target_name() -> Option<Seq<char>> {
        Some("[Ljava/lang/Class;"@)
    }

    fn target_class() -> (name: Option<&'static str>) {
        Some("[Ljava/lang/Class;")
    }

    fn upcast(self, assignable: bool) -> (r: Result<JClass<'b>, Error>) {
        if assignable {
            proof {
                use_type_invariant(self);
            }
            Ok(JClass { backing_ptr: self.backing_ptr, phantom: PhantomData })
        } else {
            let msg = join("Can't assign to type ", "[Ljava/lang/Class;");
            Err(Error::new(msg.as_str(), JNI_ERR))
        }
    }

    fn upcast_raw(self) -> (r: JClass<'b>) {
        proof {
            use_type_invariant(self);
        }
        JClass { backing_ptr: self.backing_ptr, phantom: PhantomData }
    }
}

impl<'a> JavaUpCast<JString<'a>> for JObject<'a> {
    closed spec fn recast(self) -> JString<'a> {
        JString { backing_ptr: self.backing_ptr, phantom: PhantomData }
    }

    proof fn recast_keeps_address(self) {
    }

    open spec fn target_name() -> Option<Seq<char>> {
        Some("[Ljava/lang/String;"@)
    }

    fn target_class() -> (name: Option<&'static str>) {
        Some("[Ljava/lang/String;")
    }

    fn upcast(self, assignable: bool) -> (r: Result<JString<'a>, Error>) {
        if assignable {
            proof {
                use_type_invariant(&self);
            }
            Ok(JString { backing_ptr: self.backing_ptr, phantom: PhantomData })
        } else {
            let msg = join("Can't assign to type ", "[Ljava/lang/String;");
            Err(Error::new(msg.as_str(), JNI_ERR))
        }
    }

    fn upcast_raw(self) -> (r: JString<'a>) {
        proof {
            use_type_invariant(&self);
        }
        JString { backing_ptr: self.backing_ptr, phantom: PhantomData }
    }
}

impl<'a, 'b> JavaUpCast<JString<'b>> for &'b JObject<'a> {
    closed spec fn recast(self) -> JString<'b> {
        JString { backing_ptr: self.backing_ptr, phantom: PhantomData }
    }

    proof fn recast_keeps_address(self) {
    }

    open spec fn target_name() -> Option<Seq<char>> {
        Some("[Ljava/lang/String;"@)
    }

    fn target_class() -> (name: Option<&'static str>) {
        Some("[Ljava/lang/String;")
    }

    fn upcast(self, assignable: bool) -> (r: Result<JString<'b>, Error>) {
        if assignable {
            proof {
                use_type_invariant(self);
            }
            Ok(JString { backing_ptr: self.backing_ptr, phantom: PhantomData })
        } else {
            let msg = join("Can't assign to type ", "[Ljava/lang/String;");
            Err(Error::new(msg.as_str(), JNI_ERR))
        }
    }

    fn upcast_raw(self) -> (r: JString<'b>) {
        proof {
            use_type_invariant(self);
        }
        JString { backing_ptr: self.backing_ptr, phantom: PhantomData }
    }
}

impl<'a> JavaUpCast<JWeak<'a>> for JObject<'a> {
    closed spec fn recast(self) -> JWeak<'a> {
        JWeak { backing_ptr: self.backing_ptr, phantom: PhantomData }
    }

    proof fn recast_keeps_address(self) {
    }

    open spec fn target_name() -> Option<Seq<char>> {
        Some("[Ljava/lang/ref/WeakReference;"@)
    }

    fn target_class() -> (name: Option<&'static str>) {
        Some("[Ljava/lang/ref/WeakReference;")
    }

    fn upcast(self, assignable: bool) -> (r: Result<JWeak<'a>, Error>) {
        if assignable {
            proof {
                use_type_invariant(&self);
            }
            Ok(JWeak { backing_ptr: self.backing_ptr, phantom: PhantomData })
        } else {
            let msg = join("Can't assign to type ", "[Ljava/lang/ref/WeakReference;");
            Err(Error::new(msg.as_str(), JNI_ERR))
        }
    }

    fn upcast_raw(self) -> (r: JWeak<'a>) {
        proof {
            use_type_invariant(&self);
        }
        JWeak { backing_ptr: self.backing_ptr, phantom: PhantomData }
    }
}

impl<'a, 'b> JavaUpCast<JWeak<'b>> for &'b JObject<'a> {
    closed spec fn recast(self) -> JWeak<'b> {
        JWeak { backing_ptr: self.backing_ptr, phantom: PhantomData }
    }

    proof fn recast_keeps_address(self) {
    }

    open spec fn target_name() -> Option<Seq<char>> {
        Some("[Ljava/lang/ref/WeakReference;"@)
    }

    fn target_class() -> (name: Option<&'static str>) {
        Some("[Ljava/lang/ref/WeakReference;")
    }

    fn upcast(self, assignable: bool) -> (r: Result<JWeak<'b>, Error>) {
        if assignable {
            proof {
                use_type_invariant(self);
            }
            Ok(JWeak { backing_ptr: self.backing_ptr, phantom: PhantomData })
        } else {
            let msg = join("Can't assign to type ", "[Ljava/lang/ref/WeakReference;");
            Err(Error::new(msg.as_str(), JNI_ERR))
        }
    }

    fn upcast_raw(self) -> (r: JWeak<'b>) {
        proof {
            use_type_invariant(self);
        }
        JWeak { backing_ptr: self.backing_ptr, phantom: PhantomData }
    }
}

impl<'a> JavaUpCast<JArray<'a>> for JObject<'a> {
    closed spec fn recast(self) -> JArray<'a> {
        JArray { backing_ptr: self.backing_ptr, phantom: PhantomData }
    }

    proof fn recast_keeps_address(self) {
    }

    open spec fn target_name() -> Option<Seq<char>> {
        None
    }

    fn target_class() -> (name: Option<&'static str>) {
        None
    }

    fn upcast(self, assignable: bool) -> (r: Result<JArray<'a>, Error>) {
        assert("Can't assign to type "@ + Seq::<char>::empty() =~= "Can't assign to type "@);
        Err(Error::new("Can't assign to type ", JNI_ERR))
    }

    fn upcast_raw(self) -> (r: JArray<'a>) {
        proof {
            use_type_invariant(&self);
        }
        JArray { backing_ptr: self.backing_ptr, phantom: PhantomData }
    }
}

impl<'a, 'b> JavaUpCast<JArray<'b>> for &'b JObject<'a> {
    closed spec fn recast(self) -> JArray<'b> {
        JArray { backing_ptr: self.backing_ptr, phantom: PhantomData }
    }

    proof fn recast_keeps_address(self) {
    }

    open spec fn target_name() -> Option<Seq<char>> {
        None
    }

    fn target_class() -> (name: Option<&'static str>) {
        None
    }

    fn upcast(self, assignable: bool) -> (r: Result<JArray<'b>, Error>) {
        assert("Can't assign to type "@ + Seq::<char>::empty() =~= "Can't assign to type "@);
        Err(Error::new("Can't assign to type ", JNI_ERR))
    }

    fn upcast_raw(self) -> (r: JArray<'b>) {
        proof {
            use_type_invariant(self);
        }
        JArray { backing_ptr: self.backing_ptr, phantom: PhantomData }
    }
}

} // verus!
