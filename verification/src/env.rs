//! The operations of an environment of the runtime, as far as they decide.
//!
//! An operation of the native interface is a call into the runtime's function
//! table. Around the call stands what this module holds: which entry the call
//! goes to and with which raw values, and what the raw answer means for the
//! caller. The runtime tells a failure by a null pointer or a nonzero code,
//! and an exception by a flag that has to be asked for after the call; here
//! both become one `Result`.
//!
//! An operation `op` that decides before the call has a function
//! `op_request`, which gives what is to be handed to the runtime or refuses.
//! An operation that decides after the call has a function `op`, which takes
//! what the runtime handed back. The embedding program makes the call between
//! the two.

use vstd::prelude::*;
use vstd::string::{StrSliceExecFns, StringExecFns, StringSliceAdditionalSpecFns};
use crate::error::{Error, ErrorView};
use crate::ffi;
use crate::ffi::constants::{JNI_EINVAL, JNI_ERR};
use crate::ffi::native_interface::{
    ArrayFunction, ArrayOperation, CallFamily, FieldAccess, FieldFunction, MethodFunction,
};
use crate::mangling::{is_value_type, java_type, malformed, mangled, parse, parse_signature,
    SignatureView, TypeSignature};
use crate::text::{decimal, decimal_size_text, decimal_text, join};
use crate::types::array::{JNativeArray, JNativeSlice, JNativeVec, ReleaseMode, ViewState};
use crate::types::cast::IsObject;
use crate::types::jtype::{JNativeType, JNonVoidType, JType};
use crate::types::object::{
    JClass, JFieldID, JMethodID, JObject, JObjectArray, JString, JThrowable, JWeak,
};
use crate::types::value::{char_to_unit, code_unit, is_scalar, unit_to_char, JValue};
use crate::types::version::JNIVersion;

verus! {

/// The error of an operation that the runtime refused without a code of its own.
pub open spec fn failure(msg: Seq<char>) -> ErrorView {
    ErrorView::General(msg, JNI_ERR as int)
}

/// The error of a text that holds a zero byte, which the runtime would take
/// for its end.
pub open spec fn nul_error(pos: int) -> ErrorView {
    ErrorView::Induced("nul byte found in provided data at position: "@ + decimal(pos))
}

/// The error of a size or an index that the runtime's 32-bit sizes cannot hold.
pub open spec fn out_of_range() -> ErrorView {
    ErrorView::General("Size out of range"@, JNI_EINVAL as int)
}

/// The error of handing an array of the element type `array` a slice or a
/// vector, whichever `other_kind` says, of the element type `other`. Its text
/// names both types.
pub open spec fn kind_mismatch(
    array: JNativeType,
    other: JNativeType,
    other_kind: Seq<char>,
) -> ErrorView {
    failure(
        "Invalid array/"@ + other_kind + " combo: "@ + array.spec_name() + " array, "@
            + other.spec_name() + " "@ + other_kind,
    )
}

/// The error of handing an array of the element type `array` a slice or a
/// vector, whichever `other_kind` says, of the element type `other`.
fn kind_mismatch_error(array: JNativeType, other: JNativeType, other_kind: &str) -> (e: Error)
    ensures
        e@ == kind_mismatch(array, other, other_kind@),
{
    let msg = String::from_str("Invalid array/").concat(other_kind).concat(" combo: ").concat(
        array.name(),
    ).concat(" array, ").concat(other.name()).concat(" ").concat(other_kind);
    Error::new(msg.as_str(), JNI_ERR)
}

/// The bytes of `text` as the runtime takes a text, without the zero byte that
/// ends it. Refused if `text` holds a zero byte, with the place of the first one.
pub fn cstr_from_str(text: &str) -> (r: Result<Vec<u8>, Error>)
    ensures
        match r {
            Ok(bytes) => bytes@ == text.spec_bytes() && no_nul(bytes@),
            Err(e) => nul_refused(text.spec_bytes(), e@),
        },
{
    let bytes = text.as_bytes_vec();
    let mut i: usize = 0;
    while i < bytes.len()
        invariant
            i <= bytes.len(),
            bytes@ == text.spec_bytes(),
            forall|j: int| 0 <= j < i ==> bytes@[j] != 0,
        decreases bytes.len() - i,
    {
        if bytes[i] == 0 {
            let place = decimal_size_text(i);
            let msg = join("nul byte found in provided data at position: ", place.as_str());
            let e = Error::from(msg.as_str());
            assert(text.spec_bytes()[i as int] == 0 && e@ == nul_error(i as int));
            return Err(e);
        }
        i += 1;
    }
    Ok(bytes)
}

/// A size as the runtime takes it. Refused if it is above the largest
/// 32-bit size.
pub fn jsize(n: usize) -> (r: Result<i32, Error>)
    ensures
        match r {
            Ok(size) => size == n,
            Err(e) => n > i32::MAX && e@ == out_of_range(),
        },
{
    if n > 0x7fff_ffff {
        Err(Error::new("Size out of range", JNI_EINVAL))
    } else {
        Ok(n as i32)
    }
}

/// Whether a text for the runtime is free of zero bytes.
pub open spec fn no_nul(bytes: Seq<u8>) -> bool {
    forall|i: int| 0 <= i < bytes.len() ==> bytes[i] != 0
}

/// Whether `e` is the error of the first zero byte in `bytes`.
pub open spec fn nul_refused(bytes: Seq<u8>, e: ErrorView) -> bool {
    exists|pos: int|
        0 <= pos < bytes.len() && bytes[pos] == 0 && (forall|j: int|
            0 <= j < pos ==> bytes[j] != 0) && e == #[trigger] nul_error(pos)
}

/// The code units that a text of characters is handed to the runtime as: of
/// each character the low sixteen bits.
pub open spec fn units_of(chars: Seq<char>) -> Seq<u16> {
    Seq::new(chars.len(), |i: int| code_unit(chars[i]))
}

/// Whether every code unit is a character by itself.
pub open spec fn all_scalar(units: Seq<u16>) -> bool {
    forall|i: int| 0 <= i < units.len() ==> is_scalar(#[trigger] units[i])
}

/// Whether `chars` are the characters of the code units `units`.
pub open spec fn chars_stand_for(chars: Seq<char>, units: Seq<u16>) -> bool {
    &&& chars.len() == units.len()
    &&& forall|i: int| 0 <= i < units.len() ==> (#[trigger] chars[i]) as u32 == units[i] as u32
}

/// The values of `args` as the runtime takes them.
pub open spec fn raws(args: Seq<JValue>) -> Seq<ffi::JValue> {
    Seq::new(args.len(), |i: int| args[i].raw())
}

/// What a method is looked up by, and what will be known of it when found.
#[derive(Debug)]
pub struct MethodLookup {
    /// The name of the method, as a text for the runtime
    pub name: Vec<u8>,
    /// The signature of the method in the notation of the runtime, as a text
    /// for the runtime
    pub signature: Vec<u8>,
    /// The type that the method returns
    pub ret_type: JType,
    /// The number of parameters of the method
    pub num_args: usize,
}

/// What a field is looked up by, and what will be known of it when found.
#[derive(Debug)]
pub struct FieldLookup {
    /// The name of the field, as a text for the runtime
    pub name: Vec<u8>,
    /// The type of the field in the notation of the runtime, as a text for
    /// the runtime
    pub signature: Vec<u8>,
    /// The type of the field
    pub ty: JNonVoidType,
}

/// A call of a method, ready for the runtime.
#[derive(Debug)]
pub struct MethodCall {
    /// The entry to call
    pub function: MethodFunction,
    /// The address of the object that the method is called on; zero for a
    /// call on a class
    pub receiver: usize,
    /// The address of the class that the method is called on or taken from;
    /// zero for a call that is dispatched by the object
    pub class: usize,
    /// The address of the method's identifier
    pub method: usize,
    /// The arguments
    pub args: Vec<ffi::JValue>,
}

/// A read of a field, ready for the runtime.
#[derive(Debug, Copy, Clone, PartialEq, Eq, Structural)]
pub struct FieldRead {
    /// The entry to call
    pub function: FieldFunction,
    /// The address of the object or class that has the field
    pub target: usize,
    /// The address of the field's identifier
    pub field: usize,
}

/// A write of a field, ready for the runtime.
#[derive(Debug, Copy, Clone, PartialEq, Eq, Structural)]
pub struct FieldWrite {
    /// The entry to call
    pub function: FieldFunction,
    /// The address of the object or class that has the field
    pub target: usize,
    /// The address of the field's identifier
    pub field: usize,
    /// The value to write
    pub value: ffi::JValue,
}

/// The making of an array of primitive values, ready for the runtime.
#[derive(Debug, Copy, Clone, PartialEq, Eq, Structural)]
pub struct ArrayAllocation {
    /// The entry to call
    pub function: ArrayFunction,
    /// The number of elements
    pub len: i32,
}

/// A request for a view of all elements of an array, ready for the runtime.
#[derive(Debug, Copy, Clone, PartialEq, Eq, Structural)]
pub struct ViewRequest {
    /// The entry to call
    pub function: ArrayFunction,
    /// The address of the array
    pub array: usize,
}

/// The release of a view of all elements of an array, ready for the runtime.
#[derive(Debug, Copy, Clone, PartialEq, Eq, Structural)]
pub struct ViewRelease {
    /// The entry to call
    pub function: ArrayFunction,
    /// The address of the array
    pub array: usize,
    /// The address of the elements in view
    pub elems: usize,
    /// The disposition, as the runtime numbers it
    pub mode: i32,
}

/// The release of a critical view of an array, ready for the runtime.
#[derive(Debug, Copy, Clone, PartialEq, Eq, Structural)]
pub struct CriticalRelease {
    /// The address of the array
    pub array: usize,
    /// The address of the elements in view
    pub elems: usize,
    /// The disposition, as the runtime numbers it
    pub mode: i32,
}

/// A copy of a region of an array into a buffer, ready for the runtime.
#[derive(Debug, Copy, Clone, PartialEq, Eq, Structural)]
pub struct RegionRead {
    /// The entry to call
    pub function: ArrayFunction,
    /// The address of the array
    pub array: usize,
    /// The index of the first element of the region
    pub start: i32,
    /// The number of elements of the region
    pub len: i32,
}

/// A copy of a buffer into a region of an array, ready for the runtime.
#[derive(Debug)]
pub struct RegionWrite {
    /// The entry to call
    pub function: ArrayFunction,
    /// The address of the array
    pub array: usize,
    /// The index of the first element of the region
    pub start: i32,
    /// The number of elements of the region
    pub len: i32,
    /// For an array of chars, the code units to copy; for any other array the
    /// elements of the buffer are copied as they are
    pub units: Option<Vec<u16>>,
}

/// The code units of `chars`.
pub fn chars_to_units(chars: &[char]) -> (units: Vec<u16>)
    ensures
        units@ == units_of(chars@),
{
    let mut units: Vec<u16> = Vec::new();
    let mut i: usize = 0;
    while i < chars.len()
        invariant
            i <= chars@.len(),
            units@.len() == i,
            forall|j: int| 0 <= j < i ==> units@[j] == code_unit(chars@[j]),
        decreases chars@.len() - i,
    {
        units.push(char_to_unit(chars[i]));
        i += 1;
    }
    assert(units@ =~= units_of(chars@));
    units
}

/// The characters of code units that are each a character by itself.
pub fn units_to_chars(units: &[u16]) -> (chars: Vec<char>)
    requires
        all_scalar(units@),
    ensures
        chars_stand_for(chars@, units@),
{
    let mut chars: Vec<char> = Vec::new();
    let mut i: usize = 0;
    while i < units.len()
        invariant
            i <= units@.len(),
            all_scalar(units@),
            chars@.len() == i,
            forall|j: int| 0 <= j < i ==> (#[trigger] chars@[j]) as u32 == units@[j] as u32,
        decreases units@.len() - i,
    {
        assert(is_scalar(units@[i as int]));
        match unit_to_char(units[i]) {
            Some(c) => chars.push(c),
            None => chars.push('\0'),
        }
        i += 1;
    }
    chars
}

/// Whether a signature is that of a method that returns the type of a value.
pub open spec fn is_method_of_value(v: SignatureView) -> bool {
    v matches SignatureView::Method(_, ret) && is_value_type(*ret)
}

/// Whether a signature is the type of a value that a field can hold: the type
/// of a value, but not void.
pub open spec fn is_field_type(v: SignatureView) -> bool {
    is_value_type(v) && java_type(v) != JType::Void
}

/// What holds of the answer to the lookup of the method `name` with the
/// readable signature `sig`.
pub open spec fn method_lookup_ensures(name: &str, sig: &str, r: Result<MethodLookup, Error>) -> bool {
    match r {
        Ok(l) => {
            &&& parse(sig@) matches Some(SignatureView::Method(params, ret))
            &&& is_value_type(*ret)
            &&& l.ret_type == java_type(*ret)
            &&& l.num_args == params.len()
            &&& l.name@ == name.spec_bytes()
            &&& l.signature@ == vstd::utf8::encode_utf8(mangled(parse(sig@).unwrap()))
            &&& no_nul(l.name@)
            &&& no_nul(l.signature@)
        },
        Err(e) => {
            ||| nul_refused(name.spec_bytes(), e@)
            ||| no_nul(name.spec_bytes()) && parse(sig@) is None && e@ == malformed()
            ||| no_nul(name.spec_bytes()) && parse(sig@) is Some && !is_method_of_value(
                parse(sig@).unwrap(),
            ) && e@ == failure("Expected method signature"@)
            ||| no_nul(name.spec_bytes()) && parse(sig@) is Some && is_method_of_value(
                parse(sig@).unwrap(),
            ) && nul_refused(vstd::utf8::encode_utf8(mangled(parse(sig@).unwrap())), e@)
        },
    }
}

/// What holds of the answer to the lookup of the field `name` with the
/// readable type `sig`.
pub open spec fn field_lookup_ensures(name: &str, sig: &str, r: Result<FieldLookup, Error>) -> bool {
    match r {
        Ok(l) => {
            &&& parse(sig@) matches Some(v)
            &&& is_field_type(v)
            &&& l.ty.as_type() == java_type(v)
            &&& l.name@ == name.spec_bytes()
            &&& l.signature@ == vstd::utf8::encode_utf8(mangled(v))
            &&& no_nul(l.name@)
            &&& no_nul(l.signature@)
        },
        Err(e) => {
            ||| nul_refused(name.spec_bytes(), e@)
            ||| no_nul(name.spec_bytes()) && parse(sig@) is None && e@ == malformed()
            ||| no_nul(name.spec_bytes()) && parse(sig@) is Some && !is_field_type(
                parse(sig@).unwrap(),
            ) && e@ == failure("Expected field type to be non-void"@)
            ||| no_nul(name.spec_bytes()) && parse(sig@) is Some && is_field_type(
                parse(sig@).unwrap(),
            ) && nul_refused(vstd::utf8::encode_utf8(mangled(parse(sig@).unwrap())), e@)
        },
    }
}

/// Whether `call` is the call, in the way `family`, of the method `id` with
/// the arguments `args`, on the object at `receiver` and the class at `class`.
pub open spec fn is_call(
    call: MethodCall,
    family: CallFamily,
    receiver: usize,
    class: usize,
    id: JMethodID,
    args: Seq<JValue>,
) -> bool {
    &&& call.function.family() == family
    &&& call.function.ret_ty() == id.ret_ty()
    &&& call.receiver == receiver
    &&& call.class == class
    &&& call.method == id.addr()
    &&& call.args@ == raws(args)
}

/// Whether `r` is what a call of a method came to, where the runtime returned
/// `ret` and `pending` says whether the call left an exception pending: an
/// error if it did, else nothing for a method that returns nothing, else the
/// value that stands for what the runtime returned.
pub open spec fn is_method_result(
    ret: Option<ffi::JValue>,
    pending: bool,
    r: Result<Option<JValue>, Error>,
) -> bool {
    match r {
        Ok(v) => !pending && match v {
            Some(val) => ret is Some && val.stands_for(ret.unwrap()),
            None => ret is None,
        },
        Err(e) => pending && e@ == failure("Error occured during method call"@),
    }
}

/// A signed byte read as an unsigned one.
pub open spec fn unsigned(b: i8) -> u8 {
    if b >= 0 {
        b as u8
    } else {
        (b + 256) as u8
    }
}

/// Whether `r` is the answer for the index `idx` into an array of `length`
/// elements: the index as the runtime takes it, or the refusal of an index
/// that lies outside the array.
pub open spec fn is_element_index(idx: usize, length: usize, r: Result<i32, Error>) -> bool {
    match r {
        Ok(i) => idx < length && i == idx,
        Err(e) => {
            ||| idx >= length && e@ == failure("Index outside array bounds"@)
            ||| idx < length && idx > i32::MAX && e@ == out_of_range()
        },
    }
}

/// Whether the vector `vec` holds what the runtime copied into `buffer`: the
/// same elements of the same type, for chars the characters of the code units.
pub open spec fn holds(vec: JNativeVec, buffer: ffi::JBuffer) -> bool {
    match (vec, buffer) {
        (JNativeVec::Boolean(v), ffi::JBuffer::Boolean(b)) => v@ == b@,
        (JNativeVec::Byte(v), ffi::JBuffer::Byte(b)) => v@ == b@,
        (JNativeVec::Char(v), ffi::JBuffer::Char(b)) => chars_stand_for(v@, b@),
        (JNativeVec::Short(v), ffi::JBuffer::Short(b)) => v@ == b@,
        (JNativeVec::Int(v), ffi::JBuffer::Int(b)) => v@ == b@,
        (JNativeVec::Long(v), ffi::JBuffer::Long(b)) => v@ == b@,
        (JNativeVec::Float(v), ffi::JBuffer::Float(b)) => v@ == b@,
        (JNativeVec::Double(v), ffi::JBuffer::Double(b)) => v@ == b@,
        _ => false,
    }
}

/// Higher-level construct representing a JNIEnv
#[derive(Debug)]
pub struct JNIEnv {
    version: JNIVersion,
    backing_ptr: usize,
}

impl JNIEnv {
    #[verifier::type_invariant]
    spec fn not_null(self) -> bool {
        self.backing_ptr != 0
    }

    /// The address of the runtime's environment.
    pub closed spec fn addr(&self) -> usize {
        self.backing_ptr
    }

    /// The version that the environment was made with.
    pub closed spec fn spec_version(&self) -> JNIVersion {
        self.version
    }

    /// Create a new JNIEnv from the address of an environment of the runtime
    /// and the version that the runtime reports for it. This environment will
    /// live as long as the current thread, generally. The version is not
    /// looked at where the address is null.
    pub fn new(env: usize, version: i32) -> (r: Result<JNIEnv, Error>)
        requires
            env != 0 ==> JNIVersion::is_code(version),
        ensures
            match r {
                Ok(e) => env != 0 && e.addr() == env && e.spec_version().code() == version,
                Err(e) => env == 0 && e@ == ErrorView::NullPointer("JNIEnv Constructor"@),
            },
    {
        if env == 0 {
            Err(Error::new_null("JNIEnv Constructor"))
        } else {
            Ok(JNIEnv { version: JNIVersion::from(version), backing_ptr: env })
        }
    }

    /// Get the backing environment pointer
    pub fn borrow_ptr(&self) -> (ptr: usize)
        ensures
            ptr == self.addr(),
            ptr != 0,
    {
        proof {
            use_type_invariant(self);
        }
        self.backing_ptr
    }

    /// The version that this environment was made with
    #[verifier::when_used_as_spec(spec_version)]
    pub fn version(&self) -> (v: JNIVersion)
        ensures
            v == self.spec_version(),
    {
        self.version
    }

    /// Get the version of the associated JVM, from the number that the runtime
    /// reports
    pub fn get_version(&self, raw: i32) -> (v: JNIVersion)
        requires
            JNIVersion::is_code(raw),
        ensures
            v.code() == raw,
    {
        JNIVersion::from(raw)
    }

    /// Define a new JVM class: the class that the runtime made, or Err.
    /// `raw` is the pointer that the runtime returned.
    pub fn define_class(&self, raw: usize) -> (r: Result<JClass<'_>, Error>)
        ensures
            match r {
                Ok(h) => raw != 0 && h.addr() == raw,
                Err(e) => raw == 0 && e@ == failure("Could not define new Java Class"@),
            },
    {
        if raw == 0 {
            Err(Error::new("Could not define new Java Class", JNI_ERR))
        } else {
            JClass::new(raw)
        }
    }

    /// Build a reflected Method object: the object that the runtime made, or Err.
    /// `raw` is the pointer that the runtime returned.
    pub fn to_reflected_method(&self, raw: usize) -> (r: Result<JObject<'_>, Error>)
        ensures
            match r {
                Ok(h) => raw != 0 && h.addr() == raw,
                Err(e) => raw == 0 && e@ == failure("Could not find reflected method"@),
            },
    {
        if raw == 0 {
            Err(Error::new("Could not find reflected method", JNI_ERR))
        } else {
            JObject::new(raw)
        }
    }

    /// Build a reflected Field object: the object that the runtime made, or Err.
    /// `raw` is the pointer that the runtime returned.
    pub fn to_reflected_field(&self, raw: usize) -> (r: Result<JObject<'_>, Error>)
        ensures
            match r {
                Ok(h) => raw != 0 && h.addr() == raw,
                Err(e) => raw == 0 && e@ == failure("Could not find reflected field"@),
            },
    {
        if raw == 0 {
            Err(Error::new("Could not find reflected field", JNI_ERR))
        } else {
            JObject::new(raw)
        }
    }

    /// Get the superclass of a given class. Will return an error if the class is Object or other
    /// class with no superclass.
    /// `raw` is the pointer that the runtime returned.
    pub fn get_superclass(&self, raw: usize) -> (r: Result<JClass<'_>, Error>)
        ensures
            match r {
                Ok(h) => raw != 0 && h.addr() == raw,
                Err(e) => raw == 0 && e@ == failure("Could not get object superclass"@),
            },
    {
        if raw == 0 {
            Err(Error::new("Could not get object superclass", JNI_ERR))
        } else {
            JClass::new(raw)
        }
    }

    /// Get the current exception being thrown, or Err.
    /// `raw` is the pointer that the runtime returned.
    pub fn exception_occurred(&self, raw: usize) -> (r: Result<JThrowable<'_>, Error>)
        ensures
            match r {
                Ok(h) => raw != 0 && h.addr() == raw,
                Err(e) => raw == 0 && e@ == failure("No active exception to retrieve"@),
            },
    {
        if raw == 0 {
            Err(Error::new("No active exception to retrieve", JNI_ERR))
        } else {
            JThrowable::new(raw)
        }
    }

    /// Create a new global reference, from an existing reference to an object.
    /// `raw` is the pointer that the runtime returned.
    pub fn new_global_ref(&self, raw: usize) -> (r: Result<JObject<'static>, Error>)
        ensures
            match r {
                Ok(h) => raw != 0 && h.addr() == raw,
                Err(e) => raw == 0 && e@ == failure("Couldn't create new globabl reference"@),
            },
    {
        if raw == 0 {
            Err(Error::new("Couldn't create new globabl reference", JNI_ERR))
        } else {
            JObject::new(raw)
        }
    }

    /// Create a new local reference to an object. This can be used to increment refcount and
    /// prevent garbage collection on a delete_local_ref call.
    /// `raw` is the pointer that the runtime returned.
    pub fn new_local_ref(&self, raw: usize) -> (r: Result<JObject<'_>, Error>)
        ensures
            match r {
                Ok(h) => raw != 0 && h.addr() == raw,
                Err(e) => raw == 0 && e@ == failure("Couldn't create new local reference"@),
            },
    {
        if raw == 0 {
            Err(Error::new("Couldn't create new local reference", JNI_ERR))
        } else {
            JObject::new(raw)
        }
    }

    /// Allocate an object with enough space to hold an instance of the passed class, but do not
    /// call any constructor or do any initialization.
    /// `raw` is the pointer that the runtime returned.
    pub fn alloc_object(&self, raw: usize) -> (r: Result<JObject<'_>, Error>)
        ensures
            match r {
                Ok(h) => raw != 0 && h.addr() == raw,
                Err(e) => raw == 0 && e@ == failure("Couldn't allocate object"@),
            },
    {
        if raw == 0 {
            Err(Error::new("Couldn't allocate object", JNI_ERR))
        } else {
            JObject::new(raw)
        }
    }

    /// Create a new object, calling a constructor with the passed args. Constructors are methods
    /// with the name `<init>`.
    /// `raw` is the pointer that the runtime returned.
    pub fn new_object(&self, raw: usize) -> (r: Result<JObject<'_>, Error>)
        ensures
            match r {
                Ok(h) => raw != 0 && h.addr() == raw,
                Err(e) => raw == 0 && e@ == failure("Couldn't create new object"@),
            },
    {
        if raw == 0 {
            Err(Error::new("Couldn't create new object", JNI_ERR))
        } else {
            JObject::new(raw)
        }
    }

    /// Get the class of an object.
    /// `raw` is the pointer that the runtime returned.
    pub fn get_object_class(&self, raw: usize) -> (r: Result<JClass<'_>, Error>)
        ensures
            match r {
                Ok(h) => raw != 0 && h.addr() == raw,
                Err(e) => raw == 0 && e@ == failure("Couldn't get object class"@),
            },
    {
        if raw == 0 {
            Err(Error::new("Couldn't get object class", JNI_ERR))
        } else {
            JClass::new(raw)
        }
    }

    /// Create a new [String][JString] object from a slice of characters.
    /// `raw` is the pointer that the runtime returned.
    pub fn new_string(&self, raw: usize) -> (r: Result<JString<'_>, Error>)
        ensures
            match r {
                Ok(h) => raw != 0 && h.addr() == raw,
                Err(e) => raw == 0 && e@ == failure("Couldn't create new string"@),
            },
    {
        if raw == 0 {
            Err(Error::new("Couldn't create new string", JNI_ERR))
        } else {
            JString::new(raw)
        }
    }

    /// Create a new [String][JString] object from a UTF string.
    /// `raw` is the pointer that the runtime returned.
    pub fn new_string_utf(&self, raw: usize) -> (r: Result<JString<'_>, Error>)
        ensures
            match r {
                Ok(h) => raw != 0 && h.addr() == raw,
                Err(e) => raw == 0 && e@ == failure("Couldn't create string from UTF"@),
            },
    {
        if raw == 0 {
            Err(Error::new("Couldn't create string from UTF", JNI_ERR))
        } else {
            JString::new(raw)
        }
    }

    /// Create a new array of objects, with a type of the given class and initialized to the given
    /// object value.
    /// `raw` is the pointer that the runtime returned.
    pub fn new_object_array(&self, raw: usize) -> (r: Result<JObjectArray<'_>, Error>)
        ensures
            match r {
                Ok(h) => raw != 0 && h.addr() == raw,
                Err(e) => raw == 0 && e@ == failure("Couldn't create new object array"@),
            },
    {
        if raw == 0 {
            Err(Error::new("Couldn't create new object array", JNI_ERR))
        } else {
            JObjectArray::new(raw)
        }
    }

    /// Get the element of an object array at a given index.
    /// `raw` is the pointer that the runtime returned.
    pub fn get_object_array_element(&self, raw: usize) -> (r: Result<JObject<'_>, Error>)
        ensures
            match r {
                Ok(h) => raw != 0 && h.addr() == raw,
                Err(e) => raw == 0 && e@ == failure("Failed to get array element"@),
            },
    {
        if raw == 0 {
            Err(Error::new("Failed to get array element", JNI_ERR))
        } else {
            JObject::new(raw)
        }
    }

    /// Create a new weak global reference to an object. This reference only lives as long as other,
    /// stronger references exist.
    /// `raw` is the pointer that the runtime returned.
    pub fn new_weak_global_ref(&self, raw: usize) -> (r: Result<JWeak<'static>, Error>)
        ensures
            match r {
                Ok(h) => raw != 0 && h.addr() == raw,
                Err(e) => raw == 0 && e@ == failure("Couldn't create weak global reference"@),
            },
    {
        if raw == 0 {
            Err(Error::new("Couldn't create weak global reference", JNI_ERR))
        } else {
            JWeak::new(raw)
        }
    }

    /// Create a new direct byte buffer from a slice of bytes, which the buffer
    /// must not outlive.
    /// `raw` is the pointer that the runtime returned.
    pub fn new_direct_byte_buffer<'a>(&self, raw: usize) -> (r: Result<JObject<'a>, Error>)
        ensures
            match r {
                Ok(h) => raw != 0 && h.addr() == raw,
                Err(e) => raw == 0 && e@ == failure("Couldn't create direct byte buffer"@),
            },
    {
        if raw == 0 {
            Err(Error::new("Couldn't create direct byte buffer", JNI_ERR))
        } else {
            JObject::new(raw)
        }
    }

    /// Get the module a class is defined in.
    /// `raw` is the pointer that the runtime returned.
    pub fn get_module(&self, raw: usize) -> (r: Result<JObject<'_>, Error>)
        ensures
            match r {
                Ok(h) => raw != 0 && h.addr() == raw,
                Err(e) => raw == 0 && e@ == failure("Couldn't get module for class"@),
            },
    {
        if raw == 0 {
            Err(Error::new("Couldn't get module for class", JNI_ERR))
        } else {
            JObject::new(raw)
        }
    }

    /// Start throwing an exception on the JVM. Result is Ok if exception *is* thrown, Err if no
    /// exception is thrown.
    /// `result` is the code that the runtime returned. The error carries the code.
    pub fn throw(&self, result: i32) -> (r: Result<(), Error>)
        ensures
            match r {
                Ok(_) => result == 0,
                Err(e) => result != 0 && e@ == ErrorView::General(
                    "Could not throw exception"@,
                    result as int,
                ),
            },
    {
        if result != 0 {
            Err(Error::new("Could not throw exception", result))
        } else {
            Ok(())
        }
    }

    /// Start throwing a new instance of an exception on the JVM. Result is Ok if exception *is*
    /// thrown, Err if no exception is thrown.
    /// `result` is the code that the runtime returned. The error carries the code.
    pub fn throw_new(&self, result: i32) -> (r: Result<(), Error>)
        ensures
            match r {
                Ok(_) => result == 0,
                Err(e) => result != 0 && e@ == ErrorView::General(
                    "Could not throw exception"@,
                    result as int,
                ),
            },
    {
        if result != 0 {
            Err(Error::new("Could not throw exception", result))
        } else {
            Ok(())
        }
    }

    /// Register a set of native methods to a Java class.
    /// `result` is the code that the runtime returned. The error carries the code.
    pub fn register_natives(&self, result: i32) -> (r: Result<(), Error>)
        ensures
            match r {
                Ok(_) => result == 0,
                Err(e) => result != 0 && e@ == ErrorView::General("Couldn't register native methods"@, result as int),
            },
    {
        if result != 0 {
            Err(Error::new("Couldn't register native methods", result))
        } else {
            Ok(())
        }
    }

    /// Unregister native methods from a java class.
    /// `result` is the code that the runtime returned. The error carries the code.
    pub fn unregister_natives(&self, result: i32) -> (r: Result<(), Error>)
        ensures
            match r {
                Ok(_) => result == 0,
                Err(e) => result != 0 && e@ == ErrorView::General("Couldn't unregister native methods"@, result as int),
            },
    {
        if result != 0 {
            Err(Error::new("Couldn't unregister native methods", result))
        } else {
            Ok(())
        }
    }

    /// Enter the perf monitor for an object.
    /// `result` is the code that the runtime returned. The error carries the code.
    pub fn monitor_enter(&self, result: i32) -> (r: Result<(), Error>)
        ensures
            match r {
                Ok(_) => result == 0,
                Err(e) => result != 0 && e@ == ErrorView::General("Couldn't enter monitor"@, result as int),
            },
    {
        if result != 0 {
            Err(Error::new("Couldn't enter monitor", result))
        } else {
            Ok(())
        }
    }

    /// Exit the perf monitor for an object.
    /// `result` is the code that the runtime returned. The error carries the code.
    pub fn monitor_exit(&self, result: i32) -> (r: Result<(), Error>)
        ensures
            match r {
                Ok(_) => result == 0,
                Err(e) => result != 0 && e@ == ErrorView::General("Couldn't exit monitor"@, result as int),
            },
    {
        if result != 0 {
            Err(Error::new("Couldn't exit monitor", result))
        } else {
            Ok(())
        }
    }

    /// Ensure that the JVM can create at least N many objects. Returns Err if it can't, as on
    /// failure the JVM raises an exception.
    /// `result` is the code that the runtime returned for `capacity`. The error
    /// carries the code.
    pub fn ensure_local_capacity(&self, capacity: i32, result: i32) -> (r: Result<(), Error>)
        ensures
            match r {
                Ok(_) => result == 0,
                Err(e) => result != 0 && e@ == ErrorView::General(
                    "Couldn't ensure local capacity of at least "@ + decimal(capacity as int),
                    result as int,
                ),
            },
    {
        if result != 0 {
            let number = decimal_text(capacity);
            let msg = join("Couldn't ensure local capacity of at least ", number.as_str());
            Err(Error::new(msg.as_str(), result))
        } else {
            Ok(())
        }
    }

    /// Push a frame onto the JVM. All references created within this frame will be freed once it
    /// is closed.
    /// `result` is the code that the runtime returned for `capacity`. The error
    /// carries the code.
    pub fn push_local_frame(&self, capacity: i32, result: i32) -> (r: Result<(), Error>)
        ensures
            match r {
                Ok(_) => result == 0,
                Err(e) => result != 0 && e@ == ErrorView::General(
                    "Couldn't push local from with capacity "@ + decimal(capacity as int),
                    result as int,
                ),
            },
    {
        if result != 0 {
            let number = decimal_text(capacity);
            let msg = join("Couldn't push local from with capacity ", number.as_str());
            Err(Error::new(msg.as_str(), result))
        } else {
            Ok(())
        }
    }

    /// Helper to print the current exception being thrown, or Err.
    /// `pending` is the runtime's answer to whether an exception is being
    /// thrown; on Ok the runtime is to be called.
    pub fn exception_describe(&self, pending: bool) -> (r: Result<(), Error>)
        ensures
            match r {
                Ok(_) => pending,
                Err(e) => !pending && e@ == failure("No active exception to describe"@),
            },
    {
        if pending {
            Ok(())
        } else {
            Err(Error::new("No active exception to describe", JNI_ERR))
        }
    }

    /// If an exception is being thrown, clear it. Otherwise Err.
    /// `pending` is the runtime's answer to whether an exception is being
    /// thrown; on Ok the runtime is to be called.
    pub fn exception_clear(&self, pending: bool) -> (r: Result<(), Error>)
        ensures
            match r {
                Ok(_) => pending,
                Err(e) => !pending && e@ == failure("No active error to clear"@),
            },
    {
        if pending {
            Ok(())
        } else {
            Err(Error::new("No active error to clear", JNI_ERR))
        }
    }

    /// Find an existing class by name: the text to hand to the runtime, which
    /// is the name in the notation of the runtime. Refused if the name is
    /// malformed or holds a zero byte.
    pub fn find_class_request(&self, name: &str) -> (r: Result<Vec<u8>, Error>)
        ensures
            match r {
                Ok(bytes) => parse(name@) is Some && bytes@ == vstd::utf8::encode_utf8(
                    mangled(parse(name@).unwrap()),
                ) && no_nul(bytes@),
                Err(e) => {
                    ||| parse(name@) is None && e@ == malformed()
                    ||| parse(name@) is Some && nul_refused(
                        vstd::utf8::encode_utf8(mangled(parse(name@).unwrap())),
                        e@,
                    )
                },
            },
    {
        match parse_signature(name) {
            Ok(sig) => {
                let text = sig.mangled();
                cstr_from_str(text.as_str())
            },
            Err(e) => Err(e),
        }
    }

    /// Find an existing class by name: the class that the runtime found, or
    /// Err. `raw` is the pointer that the runtime returned.
    pub fn find_class(&self, name: &str, raw: usize) -> (r: Result<JClass<'_>, Error>)
        ensures
            match r {
                Ok(h) => raw != 0 && h.addr() == raw,
                Err(e) => raw == 0 && e@ == failure("Could not find Java Class "@ + name@),
            },
    {
        if raw == 0 {
            let msg = join("Could not find Java Class ", name);
            Err(Error::new(msg.as_str(), JNI_ERR))
        } else {
            JClass::new(raw)
        }
    }

    /// Convert a reflected method object into an associated method ID. `id` is
    /// the identifier that the runtime returned for the object, `ret_name` the
    /// name of the class that the method returns and `num_args` the number of
    /// its parameters, both as the object itself tells them.
    pub fn from_reflected_method(&self, id: usize, ret_name: &str, num_args: usize) -> (r: Result<
        JMethodID,
        Error,
    >)
        ensures
            match r {
                Ok(m) => id != 0 && m.addr() == id && m.ret_ty() == JType::of_name(ret_name@)
                    && m.num_args() == num_args,
                Err(e) => id == 0 && e@ == failure("Could not find method ID"@),
            },
    {
        let ret_type = JType::from_name(ret_name);
        if id == 0 {
            Err(Error::new("Could not find method ID", JNI_ERR))
        } else {
            JMethodID::new(id, ret_type, num_args)
        }
    }

    /// Convert a reflected field object into an associated field ID. `id` is
    /// the identifier that the runtime returned for the object and `class_name`
    /// the name of the class of the field, as the object itself tells it.
    pub fn from_reflected_field(&self, id: usize, class_name: &str) -> (r: Result<JFieldID, Error>)
        ensures
            match r {
                Ok(f) => id != 0 && f.addr() == id && f.ty().as_type() == JType::of_name(
                    class_name@,
                ),
                Err(e) => {
                    ||| JType::of_name(class_name@) == JType::Void && e@ == failure(
                        "Expected field type to be non-void"@,
                    )
                    ||| JType::of_name(class_name@) != JType::Void && id == 0 && e@ == failure(
                        "Could not find field ID"@,
                    )
                },
            },
    {
        match JType::from_name(class_name).as_nonvoid() {
            None => Err(Error::new("Expected field type to be non-void", JNI_ERR)),
            Some(ty) => {
                if id == 0 {
                    Err(Error::new("Could not find field ID", JNI_ERR))
                } else {
                    JFieldID::new(id, ty)
                }
            },
        }
    }

    /// Pop a frame from the JVM: the pointer to hand to the runtime for the one
    /// reference that is to outlive the frame, null for none.
    pub fn pop_local_frame_request(&self, obj: Option<JObject>) -> (ptr: usize)
        ensures
            match obj {
                Some(o) => ptr == o.addr(),
                None => ptr == 0,
            },
    {
        match obj {
            Some(o) => o.borrow_ptr(),
            None => 0,
        }
    }

    /// Pop a frame from the JVM. All references created within it are freed, except one passed
    /// as an argument, which is returned. `raw` is the pointer that the runtime
    /// returned.
    pub fn pop_local_frame<'a>(&self, raw: usize) -> (r: Option<JObject<'a>>)
        ensures
            match r {
                Some(o) => raw != 0 && o.addr() == raw,
                None => raw == 0,
            },
    {
        match JObject::new(raw) {
            Ok(o) => Some(o),
            Err(_) => None,
        }
    }

    /// What a method with the readable signature `sig` is looked up by.
    fn method_lookup(name: &str, sig: &str) -> (r: Result<MethodLookup, Error>)
        ensures
            method_lookup_ensures(name, sig, r),
    {
        let c_name = match cstr_from_str(name) {
            Ok(bytes) => bytes,
            Err(e) => {
                return Err(e);
            },
        };
        let sig = match parse_signature(sig) {
            Ok(sig) => sig,
            Err(e) => {
                return Err(e);
            },
        };
        let text = sig.mangled();
        match sig {
            TypeSignature::Method(args, ret) => {
                match ret.value_type() {
                    Some(ret_type) => {
                        let num_args = args.len();
                        match cstr_from_str(text.as_str()) {
                            Ok(c_sig) => Ok(
                                MethodLookup { name: c_name, signature: c_sig, ret_type, num_args },
                            ),
                            Err(e) => Err(e),
                        }
                    },
                    None => Err(Error::new("Expected method signature", JNI_ERR)),
                }
            },
            _ => Err(Error::new("Expected method signature", JNI_ERR)),
        }
    }

    /// What a field with the readable type `sig` is looked up by.
    fn field_lookup(name: &str, sig: &str) -> (r: Result<FieldLookup, Error>)
        ensures
            field_lookup_ensures(name, sig, r),
    {
        let c_name = match cstr_from_str(name) {
            Ok(bytes) => bytes,
            Err(e) => {
                return Err(e);
            },
        };
        let sig = match parse_signature(sig) {
            Ok(sig) => sig,
            Err(e) => {
                return Err(e);
            },
        };
        let ty = match sig.value_type() {
            Some(t) => match t.as_nonvoid() {
                Some(ty) => ty,
                None => {
                    return Err(Error::new("Expected field type to be non-void", JNI_ERR));
                },
            },
            None => {
                return Err(Error::new("Expected field type to be non-void", JNI_ERR));
            },
        };
        let text = sig.mangled();
        match cstr_from_str(text.as_str()) {
            Ok(c_sig) => Ok(FieldLookup { name: c_name, signature: c_sig, ty }),
            Err(e) => Err(e),
        }
    }

    /// Get a method ID from a class, name, and signature: what to hand to the
    /// runtime, and what will be known of the method. Refused if the name or
    /// the signature holds a zero byte, or if the signature is malformed or is
    /// not that of a method that returns the type of a value.
    pub fn get_method_id_request(&self, name: &str, sig: &str) -> (r: Result<MethodLookup, Error>)
        ensures
            method_lookup_ensures(name, sig, r),
    {
        JNIEnv::method_lookup(name, sig)
    }

    /// Get a method ID from a class, name, and signature. `raw` is the
    /// identifier that the runtime returned for `lookup`.
    pub fn get_method_id(&self, name: &str, lookup: &MethodLookup, raw: usize) -> (r: Result<
        JMethodID,
        Error,
    >)
        ensures
            match r {
                Ok(m) => raw != 0 && m.addr() == raw && m.ret_ty() == lookup.ret_type
                    && m.num_args() == lookup.num_args,
                Err(e) => raw == 0 && e@ == failure("Couldn't get method id of "@ + name@),
            },
    {
        if raw == 0 {
            let msg = join("Couldn't get method id of ", name);
            Err(Error::new(msg.as_str(), JNI_ERR))
        } else {
            JMethodID::new(raw, lookup.ret_type, lookup.num_args)
        }
    }

    /// Get a static method ID from a class, name, and signature: what to hand
    /// to the runtime, and what will be known of the method. Refused as
    /// [`get_method_id_request`](Self::get_method_id_request) is.
    pub fn get_static_method_id_request(&self, name: &str, sig: &str) -> (r: Result<
        MethodLookup,
        Error,
    >)
        ensures
            method_lookup_ensures(name, sig, r),
    {
        JNIEnv::method_lookup(name, sig)
    }

    /// Get a static method ID from a class, name, and signature. `raw` is the
    /// identifier that the runtime returned for `lookup`.
    pub fn get_static_method_id(&self, name: &str, lookup: &MethodLookup, raw: usize) -> (r:
        Result<JMethodID, Error>)
        ensures
            match r {
                Ok(m) => raw != 0 && m.addr() == raw && m.ret_ty() == lookup.ret_type
                    && m.num_args() == lookup.num_args,
                Err(e) => raw == 0 && e@ == failure("Couldn't get static method id of "@ + name@),
            },
    {
        if raw == 0 {
            let msg = join("Couldn't get static method id of ", name);
            Err(Error::new(msg.as_str(), JNI_ERR))
        } else {
            JMethodID::new(raw, lookup.ret_type, lookup.num_args)
        }
    }

    /// Get a field ID from a class, name, and type: what to hand to the
    /// runtime, and what will be known of the field. Refused if the name or the
    /// type holds a zero byte, or if the type is malformed or is not the type
    /// of a value that a field can hold.
    pub fn get_field_id_request(&self, name: &str, sig: &str) -> (r: Result<FieldLookup, Error>)
        ensures
            field_lookup_ensures(name, sig, r),
    {
        JNIEnv::field_lookup(name, sig)
    }

    /// Get a field ID from a class, name, and type. `raw` is the identifier
    /// that the runtime returned for `lookup`.
    pub fn get_field_id(&self, name: &str, lookup: &FieldLookup, raw: usize) -> (r: Result<
        JFieldID,
        Error,
    >)
        ensures
            match r {
                Ok(f) => raw != 0 && f.addr() == raw && f.ty() == lookup.ty,
                Err(e) => raw == 0 && e@ == failure("Couldn't get field id of "@ + name@),
            },
    {
        if raw == 0 {
            let msg = join("Couldn't get field id of ", name);
            Err(Error::new(msg.as_str(), JNI_ERR))
        } else {
            JFieldID::new(raw, lookup.ty)
        }
    }

    /// Get a static field ID from a class, name, and type: what to hand to the
    /// runtime, and what will be known of the field. Refused as
    /// [`get_field_id_request`](Self::get_field_id_request) is.
    pub fn get_static_field_id_request(&self, name: &str, sig: &str) -> (r: Result<
        FieldLookup,
        Error,
    >)
        ensures
            field_lookup_ensures(name, sig, r),
    {
        JNIEnv::field_lookup(name, sig)
    }

    /// Get a static field ID from a class, name, and type. `raw` is the
    /// identifier that the runtime returned for `lookup`.
    pub fn get_static_field_id(&self, name: &str, lookup: &FieldLookup, raw: usize) -> (r: Result<
        JFieldID,
        Error,
    >)
        ensures
            match r {
                Ok(f) => raw != 0 && f.addr() == raw && f.ty() == lookup.ty,
                Err(e) => raw == 0 && e@ == failure("Couldn't get static field id of "@ + name@),
            },
    {
        if raw == 0 {
            let msg = join("Couldn't get static field id of ", name);
            Err(Error::new(msg.as_str(), JNI_ERR))
        } else {
            JFieldID::new(raw, lookup.ty)
        }
    }

    /// The call of the method `id` in the way `family` that `function` is the
    /// entry for, or the refusal with `msg` where the number of arguments is
    /// not that of the method.
    fn method_call(
        family: CallFamily,
        receiver: usize,
        class: usize,
        id: &JMethodID,
        args: &[JValue],
        msg: &str,
    ) -> (r: Result<MethodCall, Error>)
        ensures
            match r {
                Ok(call) => args@.len() == id.num_args() && is_call(
                    call,
                    family,
                    receiver,
                    class,
                    *id,
                    args@,
                ),
                Err(e) => args@.len() != id.num_args() && e@ == failure(msg@),
            },
    {
        if args.len() != id.num_args() {
            return Err(Error::new(msg, JNI_ERR));
        }
        let raw_args = JValue::make_ffi_vec(args);
        assert(raw_args@ =~= raws(args@));
        Ok(
            MethodCall {
                function: MethodFunction::select(family, id.ret_ty()),
                receiver,
                class,
                method: id.borrow_ptr(),
                args: raw_args,
            },
        )
    }

    /// What a call of a method came to: an error if the call left an exception
    /// pending, whatever the runtime returned; else nothing for a method that
    /// returns nothing, else the value that stands for what the runtime
    /// returned.
    fn method_result<'a>(ret: Option<ffi::JValue>, pending: bool) -> (r: Result<
        Option<JValue<'a>>,
        Error,
    >)
        requires
            !pending ==> (ret matches Some(ffi::JValue::C(unit)) ==> is_scalar(unit)),
        ensures
            is_method_result(ret, pending, r),
    {
        if pending {
            Err(Error::new("Error occured during method call", JNI_ERR))
        } else {
            Ok(
                match ret {
                    Some(raw) => Some(JValue::from_ffi(raw)),
                    None => None,
                },
            )
        }
    }

    /// Call a method on an object: the call to hand to the runtime. Takes the
    /// object to bind to `this`, the ID of the method, and the arguments to
    /// pass. Refused if the number of arguments is not that of the method.
    pub fn call_method_request(&self, obj: &JObject, id: &JMethodID, args: &[JValue]) -> (r:
        Result<MethodCall, Error>)
        ensures
            match r {
                Ok(call) => args@.len() == id.num_args() && is_call(
                    call,
                    CallFamily::Virtual,
                    obj.addr(),
                    0,
                    *id,
                    args@,
                ),
                Err(e) => args@.len() != id.num_args() && e@ == failure(
                    "Invalid number of arguement for method"@,
                ),
            },
    {
        JNIEnv::method_call(
            CallFamily::Virtual,
            obj.borrow_ptr(),
            0,
            id,
            args,
            "Invalid number of arguement for method",
        )
    }

    /// Call a method on an object. Return Err if the method errors, otherwise
    /// Ok. Option is None if the method is void typed, otherwise a JValue
    /// containing the return. `ret` is what the runtime returned, nothing for a
    /// method that is void typed; `pending` is the runtime's answer, after the
    /// call, to whether an exception is being thrown. With an exception pending
    /// `ret` means nothing and is not looked at.
    pub fn call_method(&self, ret: Option<ffi::JValue>, pending: bool) -> (r: Result<
        Option<JValue<'_>>,
        Error,
    >)
        requires
            !pending ==> (ret matches Some(ffi::JValue::C(unit)) ==> is_scalar(unit)),
        ensures
            is_method_result(ret, pending, r),
    {
        JNIEnv::method_result(ret, pending)
    }

    /// Call a method on an object without doing virtual lookup, instead using
    /// a passed class: the call to hand to the runtime. Takes the object to
    /// bind to `this`, the class to use, the ID of the method, and the
    /// arguments to pass. Refused if the number of arguments is not that of the
    /// method.
    pub fn call_nonvirtual_method_request(
        &self,
        obj: &JObject,
        cls: &JClass,
        id: &JMethodID,
        args: &[JValue],
    ) -> (r: Result<MethodCall, Error>)
        ensures
            match r {
                Ok(call) => args@.len() == id.num_args() && is_call(
                    call,
                    CallFamily::Nonvirtual,
                    obj.addr(),
                    cls.addr(),
                    *id,
                    args@,
                ),
                Err(e) => args@.len() != id.num_args() && e@ == failure(
                    "Invalid number of arguments for method"@,
                ),
            },
    {
        JNIEnv::method_call(
            CallFamily::Nonvirtual,
            obj.borrow_ptr(),
            cls.borrow_ptr(),
            id,
            args,
            "Invalid number of arguments for method",
        )
    }

    /// Call a method on an object without doing virtual lookup. Return Err if
    /// the method errors, otherwise Ok. Option is None if the method is void
    /// typed, otherwise a JValue containing the return. `ret` and `pending`
    /// are as for [`call_method`](Self::call_method).
    pub fn call_nonvirtual_method(&self, ret: Option<ffi::JValue>, pending: bool) -> (r: Result<
        Option<JValue<'_>>,
        Error,
    >)
        requires
            !pending ==> (ret matches Some(ffi::JValue::C(unit)) ==> is_scalar(unit)),
        ensures
            is_method_result(ret, pending, r),
    {
        JNIEnv::method_result(ret, pending)
    }

    /// Call a static method on an class: the call to hand to the runtime.
    /// Takes the class to use, the ID of the method, and the arguments to pass.
    /// Refused if the number of arguments is not that of the method.
    pub fn call_static_method_request(&self, cls: &JClass, id: &JMethodID, args: &[JValue]) -> (r:
        Result<MethodCall, Error>)
        ensures
            match r {
                Ok(call) => args@.len() == id.num_args() && is_call(
                    call,
                    CallFamily::Static,
                    0,
                    cls.addr(),
                    *id,
                    args@,
                ),
                Err(e) => args@.len() != id.num_args() && e@ == failure(
                    "Invalid number of arguments for method"@,
                ),
            },
    {
        JNIEnv::method_call(
            CallFamily::Static,
            0,
            cls.borrow_ptr(),
            id,
            args,
            "Invalid number of arguments for method",
        )
    }

    /// Call a static method on an class. Return Err if the method errors,
    /// otherwise Ok. Option is None if the method is void typed, otherwise a
    /// JValue containing the return. `ret` and `pending` are as for
    /// [`call_method`](Self::call_method).
    pub fn call_static_method(&self, ret: Option<ffi::JValue>, pending: bool) -> (r: Result<
        Option<JValue<'_>>,
        Error,
    >)
        requires
            !pending ==> (ret matches Some(ffi::JValue::C(unit)) ==> is_scalar(unit)),
        ensures
            is_method_result(ret, pending, r),
    {
        JNIEnv::method_result(ret, pending)
    }

    /// Get the value of a field on an object: the read to hand to the runtime.
    pub fn get_field_request(&self, obj: &JObject, id: &JFieldID) -> (read: FieldRead)
        ensures
            read.function.access() == FieldAccess::Read,
            read.function.ty() == id.ty(),
            read.target == obj.addr(),
            read.field == id.addr(),
    {
        FieldRead {
            function: FieldFunction::select(FieldAccess::Read, id.ty()),
            target: obj.borrow_ptr(),
            field: id.borrow_ptr(),
        }
    }

    /// Get the value of a field on an object: the value that stands for what
    /// the runtime returned. A null pointer is no object, not an error.
    pub fn get_field(&self, raw: ffi::JValue) -> (r: Result<JValue<'_>, Error>)
        requires
            raw matches ffi::JValue::C(unit) ==> is_scalar(unit),
        ensures
            r matches Ok(v) && v.stands_for(raw),
    {
        Ok(JValue::from_ffi(raw))
    }

    /// Get the value of a static field on a class: the read to hand to the
    /// runtime.
    pub fn get_static_field_request(&self, cls: &JClass, id: &JFieldID) -> (read: FieldRead)
        ensures
            read.function.access() == FieldAccess::ReadStatic,
            read.function.ty() == id.ty(),
            read.target == cls.addr(),
            read.field == id.addr(),
    {
        FieldRead {
            function: FieldFunction::select(FieldAccess::ReadStatic, id.ty()),
            target: cls.borrow_ptr(),
            field: id.borrow_ptr(),
        }
    }

    /// Get the value of a static field on a class: the value that stands for
    /// what the runtime returned. A null pointer is no object, not an error.
    pub fn get_static_field(&self, raw: ffi::JValue) -> (r: Result<JValue<'_>, Error>)
        requires
            raw matches ffi::JValue::C(unit) ==> is_scalar(unit),
        ensures
            r matches Ok(v) && v.stands_for(raw),
    {
        Ok(JValue::from_ffi(raw))
    }

    /// The value `val` as the runtime takes it for a field of type `ty`, or the
    /// refusal where `val` is of another type.
    fn field_value(ty: JNonVoidType, val: JValue) -> (r: Result<ffi::JValue, Error>)
        ensures
            match r {
                Ok(raw) => val.jtype() == ty && raw == val.raw(),
                Err(e) => val.jtype() != ty && e@ == JValue::type_mismatch(ty, val.jtype()),
            },
    {
        match ty {
            JNonVoidType::Object => match val.into_obj() {
                Ok(obj) => Ok(JValue::Object(obj).as_ffi()),
                Err(e) => Err(e),
            },
            JNonVoidType::Boolean => match val.into_bool() {
                Ok(b) => Ok(ffi::JValue::Z(b)),
                Err(e) => Err(e),
            },
            JNonVoidType::Byte => match val.into_byte() {
                Ok(b) => Ok(ffi::JValue::B(b)),
                Err(e) => Err(e),
            },
            JNonVoidType::Char => match val.into_char() {
                Ok(c) => Ok(ffi::JValue::C(char_to_unit(c))),
                Err(e) => Err(e),
            },
            JNonVoidType::Short => match val.into_short() {
                Ok(s) => Ok(ffi::JValue::S(s)),
                Err(e) => Err(e),
            },
            JNonVoidType::Int => match val.into_int() {
                Ok(i) => Ok(ffi::JValue::I(i)),
                Err(e) => Err(e),
            },
            JNonVoidType::Long => match val.into_long() {
                Ok(l) => Ok(ffi::JValue::J(l)),
                Err(e) => Err(e),
            },
            JNonVoidType::Float => match val.into_float() {
                Ok(f) => Ok(ffi::JValue::F(f)),
                Err(e) => Err(e),
            },
            JNonVoidType::Double => match val.into_double() {
                Ok(d) => Ok(ffi::JValue::D(d)),
                Err(e) => Err(e),
            },
        }
    }

    /// Set the value of a field on an object: the write to hand to the
    /// runtime. Takes the object to set the field on, the ID of the field and
    /// the value. Refused if the value is not of the type of the field.
    pub fn set_field(&self, obj: &JObject, id: &JFieldID, val: JValue) -> (r: Result<
        FieldWrite,
        Error,
    >)
        ensures
            match r {
                Ok(write) => val.jtype() == id.ty() && write.function.access()
                    == FieldAccess::Write && write.function.ty() == id.ty() && write.target
                    == obj.addr() && write.field == id.addr() && write.value == val.raw(),
                Err(e) => val.jtype() != id.ty() && e@ == JValue::type_mismatch(
                    id.ty(),
                    val.jtype(),
                ),
            },
    {
        match JNIEnv::field_value(id.ty(), val) {
            Ok(value) => Ok(
                FieldWrite {
                    function: FieldFunction::select(FieldAccess::Write, id.ty()),
                    target: obj.borrow_ptr(),
                    field: id.borrow_ptr(),
                    value,
                },
            ),
            Err(e) => Err(e),
        }
    }

    /// Set the value of a static field on a class: the write to hand to the
    /// runtime. Takes the class to set the field on, the ID of the field and
    /// the value. Refused if the value is not of the type of the field.
    pub fn set_static_field(&self, cls: &JClass, id: &JFieldID, val: JValue) -> (r: Result<
        FieldWrite,
        Error,
    >)
        ensures
            match r {
                Ok(write) => val.jtype() == id.ty() && write.function.access()
                    == FieldAccess::WriteStatic && write.function.ty() == id.ty() && write.target
                    == cls.addr() && write.field == id.addr() && write.value == val.raw(),
                Err(e) => val.jtype() != id.ty() && e@ == JValue::type_mismatch(
                    id.ty(),
                    val.jtype(),
                ),
            },
    {
        match JNIEnv::field_value(id.ty(), val) {
            Ok(value) => Ok(
                FieldWrite {
                    function: FieldFunction::select(FieldAccess::WriteStatic, id.ty()),
                    target: cls.borrow_ptr(),
                    field: id.borrow_ptr(),
                    value,
                },
            ),
            Err(e) => Err(e),
        }
    }

    /// Create a new [String][JString] object from a slice of characters: the
    /// code units to hand to the runtime, of each character the low sixteen
    /// bits. Refused if there are more characters than the runtime's sizes can
    /// hold.
    pub fn new_string_request(&self, chars: &[char]) -> (r: Result<Vec<u16>, Error>)
        ensures
            match r {
                Ok(units) => chars@.len() <= i32::MAX && units@ == units_of(chars@),
                Err(e) => chars@.len() > i32::MAX && e@ == out_of_range(),
            },
    {
        match jsize(chars.len()) {
            Ok(_) => Ok(chars_to_units(chars)),
            Err(e) => Err(e),
        }
    }

    /// Get a vector of the [char]s in a [String][JString]. `units` are the
    /// code units that the runtime lent, nothing if it returned a null pointer.
    pub fn get_string_chars(&self, units: Option<&[u16]>) -> (r: Result<Vec<char>, Error>)
        requires
            units matches Some(u) ==> all_scalar(u@),
        ensures
            match r {
                Ok(chars) => units matches Some(u) && chars_stand_for(chars@, u@),
                Err(e) => units is None && e@ == failure("Couldn't get string characters"@),
            },
    {
        match units {
            Some(u) => Ok(units_to_chars(u)),
            None => Err(Error::new("Couldn't get string characters", JNI_ERR)),
        }
    }

    /// Get the characters of a [String][JString] as a vector of modified UTF
    /// bytes. `bytes` are the bytes that the runtime lent, nothing if it
    /// returned a null pointer.
    pub fn get_string_utf_chars(&self, bytes: Option<&[u8]>) -> (r: Result<Vec<u8>, Error>)
        ensures
            match r {
                Ok(out) => bytes matches Some(b) && out@ == b@,
                Err(e) => bytes is None && e@ == failure("Couldn't get string characters"@),
            },
    {
        match bytes {
            Some(b) => {
                let mut out: Vec<u8> = Vec::new();
                let mut i: usize = 0;
                while i < b.len()
                    invariant
                        i <= b@.len(),
                        out@ == b@.subrange(0, i as int),
                    decreases b@.len() - i,
                {
                    out.push(b[i]);
                    i += 1;
                    assert(out@ =~= b@.subrange(0, i as int));
                }
                assert(b@.subrange(0, i as int) =~= b@);
                Ok(out)
            },
            None => Err(Error::new("Couldn't get string characters", JNI_ERR)),
        }
    }

    /// The bounds of a region as the runtime takes them. Refused if one of
    /// them is more than the runtime's sizes can hold.
    pub fn region_request(&self, start: usize, len: usize) -> (r: Result<(i32, i32), Error>)
        ensures
            match r {
                Ok(bounds) => bounds.0 == start && bounds.1 == len,
                Err(e) => (start > i32::MAX || len > i32::MAX) && e@ == out_of_range(),
            },
    {
        match jsize(start) {
            Ok(s) => match jsize(len) {
                Ok(l) => Ok((s, l)),
                Err(e) => Err(e),
            },
            Err(e) => Err(e),
        }
    }

    /// Get a region of a string as a vector of chars. `units` are the code
    /// units that the runtime copied out.
    pub fn get_string_region(&self, units: &[u16]) -> (r: Result<Vec<char>, Error>)
        requires
            all_scalar(units@),
        ensures
            r matches Ok(chars) && chars_stand_for(chars@, units@),
    {
        Ok(units_to_chars(units))
    }

    /// Get a region of a string as a vector of bytes. `bytes` are the signed
    /// bytes that the runtime copied out; each is read as unsigned.
    pub fn get_string_utf_region(&self, bytes: &[i8]) -> (r: Result<Vec<u8>, Error>)
        ensures
            r matches Ok(out) && out@.len() == bytes@.len() && forall|i: int|
                0 <= i < bytes@.len() ==> out@[i] == unsigned(#[trigger] bytes@[i]),
    {
        let mut out: Vec<u8> = Vec::new();
        let mut i: usize = 0;
        while i < bytes.len()
            invariant
                i <= bytes@.len(),
                out@.len() == i,
                forall|j: int| 0 <= j < i ==> out@[j] == unsigned(#[trigger] bytes@[j]),
            decreases bytes@.len() - i,
        {
            let b = bytes[i];
            let u: u8 = if b >= 0 {
                b as u8
            } else {
                (b as i16 + 256) as u8
            };
            out.push(u);
            i += 1;
        }
        Ok(out)
    }

    /// Create a new array of objects: the length and the pointer to the first
    /// value of every element, null for none, to hand to the runtime. Refused
    /// if the length is more than the runtime's sizes can hold.
    pub fn new_object_array_request(&self, len: usize, init: Option<&JObject>) -> (r: Result<
        (i32, usize),
        Error,
    >)
        ensures
            match r {
                Ok(args) => args.0 == len && args.1 == match init {
                    Some(obj) => obj.addr(),
                    None => 0,
                },
                Err(e) => len > i32::MAX && e@ == out_of_range(),
            },
    {
        let raw_init = match init {
            Some(obj) => obj.borrow_ptr(),
            None => 0,
        };
        match jsize(len) {
            Ok(l) => Ok((l, raw_init)),
            Err(e) => Err(e),
        }
    }

    /// The index `idx` into an array of `length` elements as the runtime takes
    /// it. Refused if the index lies outside the array.
    fn element_index(idx: usize, length: usize) -> (r: Result<i32, Error>)
        ensures
            is_element_index(idx, length, r),
    {
        if idx >= length {
            Err(Error::new("Index outside array bounds", JNI_ERR))
        } else {
            jsize(idx)
        }
    }

    /// Get the element of an object array at a given index: the index to hand
    /// to the runtime, where `length` is the length of the array as the runtime
    /// tells it. Refused if the index lies outside the array.
    pub fn get_object_array_element_request(&self, idx: usize, length: usize) -> (r: Result<
        i32,
        Error,
    >)
        ensures
            is_element_index(idx, length, r),
    {
        JNIEnv::element_index(idx, length)
    }

    /// Set the element of an object array at a given index: the index to hand
    /// to the runtime, where `length` is the length of the array as the runtime
    /// tells it. Refused if the index lies outside the array.
    pub fn set_object_array_element(&self, idx: usize, length: usize) -> (r: Result<i32, Error>)
        ensures
            is_element_index(idx, length, r),
    {
        JNIEnv::element_index(idx, length)
    }

    /// Create a new java array of a primitive type: the entry and the length
    /// to hand to the runtime. Refused if the length is more than the runtime's
    /// sizes can hold.
    pub fn new_native_array_request(&self, len: usize, ty: JNativeType) -> (r: Result<
        ArrayAllocation,
        Error,
    >)
        ensures
            match r {
                Ok(alloc) => alloc.function.operation() == ArrayOperation::New
                    && alloc.function.ty() == ty && alloc.len == len,
                Err(e) => len > i32::MAX && e@ == out_of_range(),
            },
    {
        match jsize(len) {
            Ok(l) => Ok(
                ArrayAllocation { function: ArrayFunction::select(ArrayOperation::New, ty), len: l },
            ),
            Err(e) => Err(e),
        }
    }

    /// Create a new java array of a primitive type. `raw` is the pointer that
    /// the runtime returned for an array of element type `ty`.
    pub fn new_native_array(&self, raw: usize, ty: JNativeType) -> (r: Result<
        JNativeArray<'_>,
        Error,
    >)
        ensures
            match r {
                Ok(arr) => raw != 0 && arr.addr() == raw && arr.jtype() == ty,
                Err(e) => raw == 0 && e@ == failure("Couldn't create new native array"@),
            },
    {
        if raw == 0 {
            Err(Error::new("Couldn't create new native array", JNI_ERR))
        } else {
            JNativeArray::new_raw(raw, ty)
        }
    }

    /// Get a whole-array slice of a primitive java array: the request to hand
    /// to the runtime. No other view may be open on the array.
    pub fn get_native_array_elements_request(&self, arr: &JNativeArray) -> (req: ViewRequest)
        ensures
            req.function.operation() == ArrayOperation::GetElements,
            req.function.ty() == arr.jtype(),
            req.array == arr.addr(),
    {
        ViewRequest {
            function: ArrayFunction::select(ArrayOperation::GetElements, arr.jtype()),
            array: arr.borrow_ptr(),
        }
    }

    /// Get a whole-array slice of a primitive java array. `ptr` is the pointer
    /// that the runtime returned, `len` the length of the array as the runtime
    /// tells it and `is_copy` whether the runtime said it made a copy. The
    /// array is then in the state of a held view.
    pub fn get_native_array_elements<'a>(
        &self,
        arr: &'a JNativeArray,
        ptr: usize,
        len: usize,
        is_copy: bool,
    ) -> (r: Result<JNativeSlice<'a>, Error>)
        ensures
            match r {
                Ok(slice) => ptr != 0 && slice.addr() == ptr && slice.len() == len
                    && slice.jtype() == arr.jtype() && Some(slice.state())
                    == ViewState::NoView.held(is_copy),
                Err(e) => ptr == 0 && e@ == failure("Couldn't get array elements"@),
            },
    {
        match JNativeSlice::new(arr.jtype(), ptr, len, ViewState::HeldView(is_copy)) {
            Some(slice) => Ok(slice),
            None => Err(Error::new("Couldn't get array elements", JNI_ERR)),
        }
    }

    /// Release a whole-array slice of a primitive java array: the release to
    /// hand to the runtime. Refused if the slice is not of the element type of
    /// the array; the error names both types.
    pub fn release_native_array_elements(
        &self,
        arr: &JNativeArray,
        slice: JNativeSlice,
        mode: ReleaseMode,
    ) -> (r: Result<ViewRelease, Error>)
        ensures
            match r {
                Ok(rel) => arr.jtype() == slice.jtype() && rel.function.operation()
                    == ArrayOperation::ReleaseElements && rel.function.ty() == arr.jtype()
                    && rel.array == arr.addr() && rel.elems == slice.addr() && rel.mode
                    == mode.code(),
                Err(e) => arr.jtype() != slice.jtype() && e@ == kind_mismatch(
                    arr.jtype(),
                    slice.jtype(),
                    "slice"@,
                ),
            },
    {
        if arr.jtype() != slice.jtype() {
            return Err(kind_mismatch_error(arr.jtype(), slice.jtype(), "slice"));
        }
        Ok(
            ViewRelease {
                function: ArrayFunction::select(ArrayOperation::ReleaseElements, arr.jtype()),
                array: arr.borrow_ptr(),
                elems: slice.borrow_ptr(),
                mode: mode.into_raw(),
            },
        )
    }

    /// Get a partial slice of a primitive java array: the copy to hand to the
    /// runtime. Refused if one of the bounds is more than the runtime's sizes
    /// can hold.
    pub fn get_native_array_region_request(&self, arr: &JNativeArray, start: usize, len: usize) -> (r:
        Result<RegionRead, Error>)
        ensures
            match r {
                Ok(read) => read.function.operation() == ArrayOperation::GetRegion
                    && read.function.ty() == arr.jtype() && read.array == arr.addr() && read.start
                    == start && read.len == len,
                Err(e) => (start > i32::MAX || len > i32::MAX) && e@ == out_of_range(),
            },
    {
        match self.region_request(start, len) {
            Ok(bounds) => Ok(
                RegionRead {
                    function: ArrayFunction::select(ArrayOperation::GetRegion, arr.jtype()),
                    array: arr.borrow_ptr(),
                    start: bounds.0,
                    len: bounds.1,
                },
            ),
            Err(e) => Err(e),
        }
    }

    /// Get a partial slice of a primitive java array: the vector that holds
    /// what the runtime copied into `buffer`, with the characters of the code
    /// units for an array of chars.
    pub fn get_native_array_region(&self, buffer: ffi::JBuffer) -> (r: Result<JNativeVec, Error>)
        requires
            buffer matches ffi::JBuffer::Char(units) ==> all_scalar(units@),
        ensures
            r matches Ok(vec) && holds(vec, buffer),
    {
        Ok(
            match buffer {
                ffi::JBuffer::Boolean(v) => JNativeVec::Boolean(v),
                ffi::JBuffer::Byte(v) => JNativeVec::Byte(v),
                ffi::JBuffer::Char(v) => JNativeVec::Char(units_to_chars(v.as_slice())),
                ffi::JBuffer::Short(v) => JNativeVec::Short(v),
                ffi::JBuffer::Int(v) => JNativeVec::Int(v),
                ffi::JBuffer::Long(v) => JNativeVec::Long(v),
                ffi::JBuffer::Float(v) => JNativeVec::Float(v),
                ffi::JBuffer::Double(v) => JNativeVec::Double(v),
            },
        )
    }

    /// Copy a vector into a region of a primitive java array: the copy to hand
    /// to the runtime. Refused if the vector is not of the element type of the
    /// array, with an error that names both types, if it holds less than `len`
    /// elements, or if one of the bounds is more than the runtime's sizes can
    /// hold.
    pub fn set_native_array_region(
        &self,
        arr: &JNativeArray,
        start: usize,
        len: usize,
        slice: &JNativeVec,
    ) -> (r: Result<RegionWrite, Error>)
        ensures
            match r {
                Ok(write) => {
                    &&& arr.jtype() == slice.jtype()
                    &&& len <= slice.spec_len()
                    &&& write.function.operation() == ArrayOperation::SetRegion
                    &&& write.function.ty() == arr.jtype()
                    &&& write.array == arr.addr()
                    &&& write.start == start
                    &&& write.len == len
                    &&& match slice {
                        JNativeVec::Char(chars) => write.units matches Some(units) && units@
                            == units_of(chars@),
                        _ => write.units is None,
                    }
                },
                Err(e) => {
                    ||| arr.jtype() != slice.jtype() && e@ == kind_mismatch(
                        arr.jtype(),
                        slice.jtype(),
                        "vec"@,
                    )
                    ||| arr.jtype() == slice.jtype() && (len > slice.spec_len() || start
                        > i32::MAX || len > i32::MAX) && e@ == out_of_range()
                },
            },
    {
        if arr.jtype() != slice.jtype() {
            return Err(kind_mismatch_error(arr.jtype(), slice.jtype(), "vec"));
        }
        if len > slice.len() {
            return Err(Error::new("Size out of range", JNI_EINVAL));
        }
        let bounds = match self.region_request(start, len) {
            Ok(b) => b,
            Err(e) => {
                return Err(e);
            },
        };
        let units = match slice {
            JNativeVec::Char(chars) => Some(chars_to_units(chars.as_slice())),
            _ => None,
        };
        Ok(
            RegionWrite {
                function: ArrayFunction::select(ArrayOperation::SetRegion, arr.jtype()),
                array: arr.borrow_ptr(),
                start: bounds.0,
                len: bounds.1,
                units,
            },
        )
    }

    /// Get a critical view of a primitive java array, with some limits:
    /// - No other JNI methods should be called before this slice is released
    /// - We should not block on code that might itself rely on a different thread that calls JNI
    ///   methods
    /// This increases the likelihood of the JVM not copying the array backing.
    /// `ptr` is the pointer that the runtime returned and `len` the length of
    /// the array as the runtime tells it. The array is then in the state of a
    /// critical view.
    pub fn get_primitive_array_critical<'a>(&self, arr: &'a JNativeArray, ptr: usize, len: usize) -> (r:
        Result<JNativeSlice<'a>, Error>)
        ensures
            match r {
                Ok(slice) => ptr != 0 && slice.addr() == ptr && slice.len() == len
                    && slice.jtype() == arr.jtype() && Some(slice.state())
                    == ViewState::NoView.critical(),
                Err(e) => ptr == 0 && e@ == failure("Couldn't get array elements"@),
            },
    {
        match JNativeSlice::new(arr.jtype(), ptr, len, ViewState::CriticalView) {
            Some(slice) => Ok(slice),
            None => Err(Error::new("Couldn't get array elements", JNI_ERR)),
        }
    }

    /// Release a critical view of a primitive java array: the release to hand
    /// to the runtime. Refused if the slice is not of the element type of the
    /// array; the error names both types.
    pub fn release_primitive_array_critical(
        &self,
        arr: &JNativeArray,
        slice: &JNativeSlice,
        mode: ReleaseMode,
    ) -> (r: Result<CriticalRelease, Error>)
        ensures
            match r {
                Ok(rel) => arr.jtype() == slice.jtype() && rel.array == arr.addr() && rel.elems
                    == slice.addr() && rel.mode == mode.code(),
                Err(e) => arr.jtype() != slice.jtype() && e@ == kind_mismatch(
                    arr.jtype(),
                    slice.jtype(),
                    "slice"@,
                ),
            },
    {
        if arr.jtype() != slice.jtype() {
            return Err(kind_mismatch_error(arr.jtype(), slice.jtype(), "slice"));
        }
        Ok(
            CriticalRelease {
                array: arr.borrow_ptr(),
                elems: slice.borrow_ptr(),
                mode: mode.into_raw(),
            },
        )
    }

    /// Get a slice from a direct byte buffer object: where the bytes lie and
    /// how many they are. `pos` is the address and `capacity` the capacity that
    /// the runtime returned for the object. Refused if the address is null or
    /// the capacity is no size.
    pub fn get_direct_buffer_slice(&self, pos: usize, capacity: i64) -> (r: Result<
        (usize, usize),
        Error,
    >)
        ensures
            match r {
                Ok(region) => pos != 0 && region.0 == pos && region.1 == capacity,
                Err(e) => (pos == 0 || capacity < 0 || capacity > usize::MAX) && e@ == failure(
                    "Couldn't get buffer from object"@,
                ),
            },
    {
        if pos == 0 || capacity < 0 || capacity as u64 > usize::MAX as u64 {
            Err(Error::new("Couldn't get buffer from object", JNI_ERR))
        } else {
            Ok((pos, capacity as usize))
        }
    }
}

} // verus!
