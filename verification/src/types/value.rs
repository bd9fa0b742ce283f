//! An enum that can hold every value of the runtime. Used for the arguments
//! and results of methods, and for getting and setting fields.

use vstd::prelude::*;
use vstd::string::StringExecFns;
use crate::error::{Error, ErrorView};
use crate::ffi;
use crate::ffi::constants::JNI_ERR;
use crate::types::cast::IsObject;
use crate::types::jtype::JNonVoidType;
use crate::types::object::JObject;

verus! {

/// An enum representing every possible types a JNI value can hold.
/// Used for calling and as the return of methods, as well as for getting/setting fields. This
/// provides runtime type-safety.
#[derive(Debug)]
pub enum JValue<'a> {
    /// A primitive boolean value
    Bool(bool),
    /// A primitive byte value
    Byte(i8),
    /// A primitive char value
    Char(char),
    /// A primitive short value
    Short(i16),
    /// A primitive int value
    Int(i32),
    /// A primitive long value
    Long(i64),
    /// A primitive float value, as the bits of its encoding
    Float(u32),
    /// A primitive double value, as the bits of its encoding
    Double(u64),
    /// A nullable object value
    Object(Option<JObject<'a>>),
}

/// Whether a UTF-16 code unit is a character by itself.
pub open spec fn is_scalar(unit: u16) -> bool {
    unit < 0xD800 || unit > 0xDFFF
}

/// The low sixteen bits of a character's code point.
pub open spec fn code_unit(c: char) -> u16 {
    ((c as u32) % 0x1_0000) as u16
}

/// The low sixteen bits of a character's code point.
pub fn char_to_unit(c: char) -> (unit: u16)
    ensures
        unit == code_unit(c),
{
    ((c as u32) % 0x1_0000) as u16
}

/// The character of a code unit, if the unit is a character by itself.
pub fn unit_to_char(unit: u16) -> (r: Option<char>)
    ensures
        match r {
            Some(c) => is_scalar(unit) && c as u32 == unit as u32,
            None => !is_scalar(unit),
        },
{
    char::from_u32(unit as u32)
}

/// `char::from_u32` gives the character of a code point, and nothing for a
/// surrogate or a number above `0x10FFFF`.
pub assume_specification[ char::from_u32 ](i: u32) -> (r: Option<char>)
    ensures
        match r {
            Some(c) => c as u32 == i && (i < 0xD800 || 0xDFFF < i <= 0x10FFFF),
            None => 0xD800 <= i <= 0xDFFF || i > 0x10FFFF,
        },
;

impl<'a> JValue<'a> {
    /// The type of the value.
    pub open spec fn spec_jtype(&self) -> JNonVoidType {
        match self {
            JValue::Bool(_) => JNonVoidType::Boolean,
            JValue::Byte(_) => JNonVoidType::Byte,
            JValue::Char(_) => JNonVoidType::Char,
            JValue::Short(_) => JNonVoidType::Short,
            JValue::Int(_) => JNonVoidType::Int,
            JValue::Long(_) => JNonVoidType::Long,
            JValue::Float(_) => JNonVoidType::Float,
            JValue::Double(_) => JNonVoidType::Double,
            JValue::Object(_) => JNonVoidType::Object,
        }
    }

    /// The value as the runtime takes it: the same member with the same
    /// content, a char cut to its low sixteen bits, an object as its address
    /// and no object as zero.
    pub open spec fn raw(&self) -> ffi::JValue {
        match self {
            JValue::Bool(b) => ffi::JValue::Z(*b),
            JValue::Byte(b) => ffi::JValue::B(*b),
            JValue::Char(c) => ffi::JValue::C(code_unit(*c)),
            JValue::Short(s) => ffi::JValue::S(*s),
            JValue::Int(i) => ffi::JValue::I(*i),
            JValue::Long(l) => ffi::JValue::J(*l),
            JValue::Float(f) => ffi::JValue::F(*f),
            JValue::Double(d) => ffi::JValue::D(*d),
            JValue::Object(Some(obj)) => ffi::JValue::L(obj.addr()),
            JValue::Object(None) => ffi::JValue::L(0),
        }
    }

    /// Whether this is the value that stands for `raw`: the same member with
    /// the same content, where a char is the code unit by itself, a zero
    /// address is no object, and any other address is the object there.
    pub open spec fn stands_for(&self, raw: ffi::JValue) -> bool {
        &&& self.raw() == raw
        &&& self matches JValue::Char(c) ==> (c as u32) < 0x1_0000
    }

    /// The error of using a value of the type `actual` as the type `expected`.
    /// Its text names both.
    pub open spec fn type_mismatch(expected: JNonVoidType, actual: JNonVoidType) -> ErrorView {
        ErrorView::General(
            "JValue isn't "@ + expected.spec_described() + ", but "@ + actual.spec_described(),
            JNI_ERR as int,
        )
    }

    /// The error of using a value of the type `actual` as the type `expected`
    fn mismatch(expected: JNonVoidType, actual: JNonVoidType) -> (e: Error)
        ensures
            e@ == JValue::type_mismatch(expected, actual),
    {
        let msg = String::from_str("JValue isn't ").concat(expected.described()).concat(
            ", but ",
        ).concat(actual.described());
        Error::new(msg.as_str(), JNI_ERR)
    }

    /// The type of the value
    #[verifier::when_used_as_spec(spec_jtype)]
    pub fn jtype(&self) -> (ty: JNonVoidType)
        ensures
            ty == self.spec_jtype(),
    {
        match self {
            JValue::Bool(_) => JNonVoidType::Boolean,
            JValue::Byte(_) => JNonVoidType::Byte,
            JValue::Char(_) => JNonVoidType::Char,
            JValue::Short(_) => JNonVoidType::Short,
            JValue::Int(_) => JNonVoidType::Int,
            JValue::Long(_) => JNonVoidType::Long,
            JValue::Float(_) => JNonVoidType::Float,
            JValue::Double(_) => JNonVoidType::Double,
            JValue::Object(_) => JNonVoidType::Object,
        }
    }

    /// Create a vector of the FFI-safe JValue union type from a slice of JValues
    pub fn make_ffi_vec(slice: &[JValue]) -> (out: Vec<ffi::JValue>)
        ensures
            out@.len() == slice@.len(),
            forall|i: int| 0 <= i < slice@.len() ==> out@[i] == slice@[i].raw(),
    {
        let mut out: Vec<ffi::JValue> = Vec::new();
        let mut i: usize = 0;
        while i < slice.len()
            invariant
                i <= slice@.len(),
                out@.len() == i,
                forall|j: int| 0 <= j < i ==> out@[j] == slice@[j].raw(),
            decreases slice@.len() - i,
        {
            out.push(slice[i].as_ffi());
            i += 1;
        }
        out
    }

    /// Get this value as a (possibly null) JObject, or Err
    pub fn into_obj(self) -> (r: Result<Option<JObject<'a>>, Error>)
        ensures
            match r {
                Ok(obj) => self == JValue::Object(obj),
                Err(e) => !(self is Object) && e@ == JValue::type_mismatch(
                    JNonVoidType::Object,
                    self.spec_jtype(),
                ),
            },
    {
        let actual = self.jtype();
        if let JValue::Object(obj) = self {
            Ok(obj)
        } else {
            Err(JValue::mismatch(JNonVoidType::Object, actual))
        }
    }

    /// Get this value as a JBoolean, or Err
    pub fn into_bool(self) -> (r: Result<bool, Error>)
        ensures
            match r {
                Ok(b) => self == JValue::Bool(b),
                Err(e) => !(self is Bool) && e@ == JValue::type_mismatch(
                    JNonVoidType::Boolean,
                    self.spec_jtype(),
                ),
            },
    {
        let actual = self.jtype();
        if let JValue::Bool(b) = self {
            Ok(b)
        } else {
            Err(JValue::mismatch(JNonVoidType::Boolean, actual))
        }
    }

    /// Get this value as a JByte, or Err
    pub fn into_byte(self) -> (r: Result<i8, Error>)
        ensures
            match r {
                Ok(b) => self == JValue::Byte(b),
                Err(e) => !(self is Byte) && e@ == JValue::type_mismatch(
                    JNonVoidType::Byte,
                    self.spec_jtype(),
                ),
            },
    {
        let actual = self.jtype();
        if let JValue::Byte(b) = self {
            Ok(b)
        } else {
            Err(JValue::mismatch(JNonVoidType::Byte, actual))
        }
    }

    /// Get this value as a JChar, or Err
    pub fn into_char(self) -> (r: Result<char, Error>)
        ensures
            match r {
                Ok(c) => self == JValue::Char(c),
                Err(e) => !(self is Char) && e@ == JValue::type_mismatch(
                    JNonVoidType::Char,
                    self.spec_jtype(),
                ),
            },
    {
        let actual = self.jtype();
        if let JValue::Char(c) = self {
            Ok(c)
        } else {
            Err(JValue::mismatch(JNonVoidType::Char, actual))
        }
    }

    /// Get this value as a JShort, or Err
    pub fn into_short(self) -> (r: Result<i16, Error>)
        ensures
            match r {
                Ok(s) => self == JValue::Short(s),
                Err(e) => !(self is Short) && e@ == JValue::type_mismatch(
                    JNonVoidType::Short,
                    self.spec_jtype(),
                ),
            },
    {
        let actual = self.jtype();
        if let JValue::Short(s) = self {
            Ok(s)
        } else {
            Err(JValue::mismatch(JNonVoidType::Short, actual))
        }
    }

    /// Get this value as a JInt, or Err
    pub fn into_int(self) -> (r: Result<i32, Error>)
        ensures
            match r {
                Ok(i) => self == JValue::Int(i),
                Err(e) => !(self is Int) && e@ == JValue::type_mismatch(
                    JNonVoidType::Int,
                    self.spec_jtype(),
                ),
            },
    {
        let actual = self.jtype();
        if let JValue::Int(i) = self {
            Ok(i)
        } else {
            Err(JValue::mismatch(JNonVoidType::Int, actual))
        }
    }

    /// Get this value as a JLong, or Err
    pub fn into_long(self) -> (r: Result<i64, Error>)
        ensures
            match r {
                Ok(l) => self == JValue::Long(l),
                Err(e) => !(self is Long) && e@ == JValue::type_mismatch(
                    JNonVoidType::Long,
                    self.spec_jtype(),
                ),
            },
    {
        let actual = self.jtype();
        if let JValue::Long(l) = self {
            Ok(l)
        } else {
            Err(JValue::mismatch(JNonVoidType::Long, actual))
        }
    }

    /// Get this value as the bits of a JFloat, or Err
    pub fn into_float(self) -> (r: Result<u32, Error>)
        ensures
            match r {
                Ok(f) => self == JValue::Float(f),
                Err(e) => !(self is Float) && e@ == JValue::type_mismatch(
                    JNonVoidType::Float,
                    self.spec_jtype(),
                ),
            },
    {
        let actual = self.jtype();
        if let JValue::Float(f) = self {
            Ok(f)
        } else {
            Err(JValue::mismatch(JNonVoidType::Float, actual))
        }
    }

    /// Get this value as the bits of a JDouble, or Err
    pub fn into_double(self) -> (r: Result<u64, Error>)
        ensures
            match r {
                Ok(d) => self == JValue::Double(d),
                Err(e) => !(self is Double) && e@ == JValue::type_mismatch(
                    JNonVoidType::Double,
                    self.spec_jtype(),
                ),
            },
    {
        let actual = self.jtype();
        if let JValue::Double(d) = self {
            Ok(d)
        } else {
            Err(JValue::mismatch(JNonVoidType::Double, actual))
        }
    }

    /// Get this JValue as the FFI-safe union JValue type
    pub fn as_ffi(&self) -> (r: ffi::JValue)
        ensures
            r == self.raw(),
    {
        match self {
            JValue::Bool(b) => ffi::JValue::Z(*b),
            JValue::Byte(b) => ffi::JValue::B(*b),
            JValue::Char(c) => ffi::JValue::C(char_to_unit(*c)),
            JValue::Short(s) => ffi::JValue::S(*s),
            JValue::Int(i) => ffi::JValue::I(*i),
            JValue::Long(l) => ffi::JValue::J(*l),
            JValue::Float(f) => ffi::JValue::F(*f),
            JValue::Double(d) => ffi::JValue::D(*d),
            JValue::Object(obj) => match obj {
                Some(o) => ffi::JValue::L(o.borrow_ptr()),
                None => ffi::JValue::L(0),
            },
        }
    }

    /// The value that the runtime handed back. A char must be a character by
    /// itself; a zero address is no object.
    pub fn from_ffi(raw: ffi::JValue) -> (v: JValue<'a>)
        requires
            raw matches ffi::JValue::C(unit) ==> is_scalar(unit),
        ensures
            v.stands_for(raw),
    {
        match raw {
            ffi::JValue::Z(b) => JValue::Bool(b),
            ffi::JValue::B(b) => JValue::Byte(b),
            ffi::JValue::C(unit) => match unit_to_char(unit) {
                Some(c) => JValue::Char(c),
                None => JValue::Char('\0'),
            },
            ffi::JValue::S(s) => JValue::Short(s),
            ffi::JValue::I(i) => JValue::Int(i),
            ffi::JValue::J(l) => JValue::Long(l),
            ffi::JValue::F(f) => JValue::Float(f),
            ffi::JValue::D(d) => JValue::Double(d),
            ffi::JValue::L(ptr) => match JObject::new(ptr) {
                Ok(obj) => JValue::Object(Some(obj)),
                Err(_) => JValue::Object(None),
            },
        }
    }
}

impl<'a> From<bool> for JValue<'a> {
    fn from(val: bool) -> (v: JValue<'a>) {
        JValue::Bool(val)
    }
}

impl<'a> vstd::std_specs::convert::FromSpecImpl<bool> for JValue<'a> {
    open spec fn obeys_from_spec() -> bool {
        true
    }

    open spec fn from_spec(val: bool) -> JValue<'a> {
        JValue::Bool(val)
    }
}

impl<'a> From<i8> for JValue<'a> {
    fn from(val: i8) -> (v: JValue<'a>) {
        JValue::Byte(val)
    }
}

impl<'a> vstd::std_specs::convert::FromSpecImpl<i8> for JValue<'a> {
    open spec fn obeys_from_spec() -> bool {
        true
    }

    open spec fn from_spec(val: i8) -> JValue<'a> {
        JValue::Byte(val)
    }
}

impl<'a> From<char> for JValue<'a> {
    fn from(val: char) -> (v: JValue<'a>) {
        JValue::Char(val)
    }
}

impl<'a> vstd::std_specs::convert::FromSpecImpl<char> for JValue<'a> {
    open spec fn obeys_from_spec() -> bool {
        true
    }

    open spec fn from_spec(val: char) -> JValue<'a> {
        JValue::Char(val)
    }
}

impl<'a> From<i16> for JValue<'a> {
    fn from(val: i16) -> (v: JValue<'a>) {
        JValue::Short(val)
    }
}

impl<'a> vstd::std_specs::convert::FromSpecImpl<i16> for JValue<'a> {
    open spec fn obeys_from_spec() -> bool {
        true
    }

    open spec fn from_spec(val: i16) -> JValue<'a> {
        JValue::Short(val)
    }
}

impl<'a> From<i32> for JValue<'a> {
    fn from(val: i32) -> (v: JValue<'a>) {
        JValue::Int(val)
    }
}

impl<'a> vstd::std_specs::convert::FromSpecImpl<i32> for JValue<'a> {
    open spec fn obeys_from_spec() -> bool {
        true
    }

    open spec fn from_spec(val: i32) -> JValue<'a> {
        JValue::Int(val)
    }
}

impl<'a> From<i64> for JValue<'a> {
    fn from(val: i64) -> (v: JValue<'a>) {
        JValue::Long(val)
    }
}

impl<'a> vstd::std_specs::convert::FromSpecImpl<i64> for JValue<'a> {
    open spec fn obeys_from_spec() -> bool {
        true
    }

    open spec fn from_spec(val: i64) -> JValue<'a> {
        JValue::Long(val)
    }
}

impl<'a> From<JObject<'a>> for JValue<'a> {
    fn from(val: JObject<'a>) -> (v: JValue<'a>) {
        JValue::Object(Some(val))
    }
}

impl<'a> vstd::std_specs::convert::FromSpecImpl<JObject<'a>> for JValue<'a> {
    open spec fn obeys_from_spec() -> bool {
        true
    }

    open spec fn from_spec(val: JObject<'a>) -> JValue<'a> {
        JValue::Object(Some(val))
    }
}

impl<'a> From<Option<JObject<'a>>> for JValue<'a> {
    fn from(val: Option<JObject<'a>>) -> (v: JValue<'a>) {
        JValue::Object(val)
    }
}

impl<'a> vstd::std_specs::convert::FromSpecImpl<Option<JObject<'a>>> for JValue<'a> {
    open spec fn obeys_from_spec() -> bool {
        true
    }

    open spec fn from_spec(val: Option<JObject<'a>>) -> JValue<'a> {
        JValue::Object(val)
    }
}

} // verus!
