//! Enums for the value kinds of the runtime and for the kinds of a reference.

use vstd::prelude::*;
use crate::ffi::types::JObjectRefType;
use crate::text::same_text;

verus! {

/// All the possible types recognized by the java JNI
#[derive(Debug, Copy, Clone, PartialEq, Eq, Structural)]
pub enum JType {
    /// Object type
    Object,
    /// Primitive boolean type
    Boolean,
    /// Primitive byte type
    Byte,
    /// Primitive char type
    Char,
    /// Primitive short type
    Short,
    /// Primitive int type
    Int,
    /// Primitive long type
    Long,
    /// Primitive float type
    Float,
    /// Primitive double type
    Double,
    /// Primitive void type
    Void,
}

/// All the possible non-void types recognized by the java JNI
#[derive(Debug, Copy, Clone, PartialEq, Eq, Structural)]
pub enum JNonVoidType {
    /// Object type
    Object,
    /// Primitive boolean type
    Boolean,
    /// Primitive byte type
    Byte,
    /// Primitive char type
    Char,
    /// Primitive short type
    Short,
    /// Primitive int type
    Int,
    /// Primitive long type
    Long,
    /// Primitive float type
    Float,
    /// Primitive double type
    Double,
}

/// All the possible native/primitive types recognized by the java JNI
#[derive(Debug, Copy, Clone, PartialEq, Eq, Structural)]
pub enum JNativeType {
    /// Primitive boolean type
    Boolean,
    /// Primitive byte type
    Byte,
    /// Primitive char type
    Char,
    /// Primitive short type
    Short,
    /// Primitive int type
    Int,
    /// Primitive long type
    Long,
    /// Primitive float type
    Float,
    /// Primitive double type
    Double,
}

/// All the possible JVM reference types
#[derive(Debug, Copy, Clone, PartialEq, Eq, Structural)]
pub enum JRefType {
    /// An invalid reference
    Invalid,
    /// A reference that lives till the end of the current scope
    Local,
    /// A reference that lives forever
    Global,
    /// A reference that lives as long as other references exist
    WeakGlobal,
}

impl JType {
    /// The type that a readable name stands for: one of the nine primitive
    /// names, or else an object.
    pub open spec fn of_name(name: Seq<char>) -> JType {
        if name == "void"@ {
            JType::Void
        } else if name == "boolean"@ {
            JType::Boolean
        } else if name == "byte"@ {
            JType::Byte
        } else if name == "char"@ {
            JType::Char
        } else if name == "short"@ {
            JType::Short
        } else if name == "int"@ {
            JType::Int
        } else if name == "long"@ {
            JType::Long
        } else if name == "float"@ {
            JType::Float
        } else if name == "double"@ {
            JType::Double
        } else {
            JType::Object
        }
    }

    /// Get a JType from the name of a type
    pub fn from_name(name: &str) -> (ty: JType)
        ensures
            ty == JType::of_name(name@),
    {
        if same_text(name, "void") {
            JType::Void
        } else if same_text(name, "boolean") {
            JType::Boolean
        } else if same_text(name, "byte") {
            JType::Byte
        } else if same_text(name, "char") {
            JType::Char
        } else if same_text(name, "short") {
            JType::Short
        } else if same_text(name, "int") {
            JType::Int
        } else if same_text(name, "long") {
            JType::Long
        } else if same_text(name, "float") {
            JType::Float
        } else if same_text(name, "double") {
            JType::Double
        } else {
            JType::Object
        }
    }

    /// Get a JNonVoidType from this JType, if this JType isn't Void
    pub fn as_nonvoid(&self) -> (r: Option<JNonVoidType>)
        ensures
            match r {
                Some(ty) => ty.as_type() == *self,
                None => *self == JType::Void,
            },
    {
        match self {
            JType::Object => Some(JNonVoidType::Object),
            JType::Boolean => Some(JNonVoidType::Boolean),
            JType::Byte => Some(JNonVoidType::Byte),
            JType::Char => Some(JNonVoidType::Char),
            JType::Short => Some(JNonVoidType::Short),
            JType::Int => Some(JNonVoidType::Int),
            JType::Long => Some(JNonVoidType::Long),
            JType::Float => Some(JNonVoidType::Float),
            JType::Double => Some(JNonVoidType::Double),
            JType::Void => None,
        }
    }

    /// Get a JNativeType from this JType, if this JType is a native/primitive type
    pub fn as_native(&self) -> (r: Option<JNativeType>)
        ensures
            match r {
                Some(ty) => ty.as_type() == *self,
                None => *self == JType::Void || *self == JType::Object,
            },
    {
        match self {
            JType::Object => None,
            JType::Boolean => Some(JNativeType::Boolean),
            JType::Byte => Some(JNativeType::Byte),
            JType::Char => Some(JNativeType::Char),
            JType::Short => Some(JNativeType::Short),
            JType::Int => Some(JNativeType::Int),
            JType::Long => Some(JNativeType::Long),
            JType::Float => Some(JNativeType::Float),
            JType::Double => Some(JNativeType::Double),
            JType::Void => None,
        }
    }
}

impl JNonVoidType {
    /// The type as a sentence names it, with its article.
    pub open spec fn spec_described(self) -> Seq<char> {
        match self {
            JNonVoidType::Object => "an object"@,
            JNonVoidType::Boolean => "a boolean"@,
            JNonVoidType::Byte => "a byte"@,
            JNonVoidType::Char => "a char"@,
            JNonVoidType::Short => "a short"@,
            JNonVoidType::Int => "an integer"@,
            JNonVoidType::Long => "a long"@,
            JNonVoidType::Float => "a float"@,
            JNonVoidType::Double => "a double"@,
        }
    }

    /// The type as a sentence names it, with its article
    pub fn described(self) -> (text: &'static str)
        ensures
            text@ == self.spec_described(),
    {
        match self {
            JNonVoidType::Object => "an object",
            JNonVoidType::Boolean => "a boolean",
            JNonVoidType::Byte => "a byte",
            JNonVoidType::Char => "a char",
            JNonVoidType::Short => "a short",
            JNonVoidType::Int => "an integer",
            JNonVoidType::Long => "a long",
            JNonVoidType::Float => "a float",
            JNonVoidType::Double => "a double",
        }
    }

    /// This type among all the types.
    pub open spec fn as_type(self) -> JType {
        match self {
            JNonVoidType::Object => JType::Object,
            JNonVoidType::Boolean => JType::Boolean,
            JNonVoidType::Byte => JType::Byte,
            JNonVoidType::Char => JType::Char,
            JNonVoidType::Short => JType::Short,
            JNonVoidType::Int => JType::Int,
            JNonVoidType::Long => JType::Long,
            JNonVoidType::Float => JType::Float,
            JNonVoidType::Double => JType::Double,
        }
    }
}

impl JNativeType {
    /// The readable name of the type.
    pub open spec fn spec_name(self) -> Seq<char> {
        match self {
            JNativeType::Boolean => "boolean"@,
            JNativeType::Byte => "byte"@,
            JNativeType::Char => "char"@,
            JNativeType::Short => "short"@,
            JNativeType::Int => "int"@,
            JNativeType::Long => "long"@,
            JNativeType::Float => "float"@,
            JNativeType::Double => "double"@,
        }
    }

    /// The readable name of the type
    pub fn name(self) -> (text: &'static str)
        ensures
            text@ == self.spec_name(),
    {
        match self {
            JNativeType::Boolean => "boolean",
            JNativeType::Byte => "byte",
            JNativeType::Char => "char",
            JNativeType::Short => "short",
            JNativeType::Int => "int",
            JNativeType::Long => "long",
            JNativeType::Float => "float",
            JNativeType::Double => "double",
        }
    }

    /// This type among all the types.
    pub open spec fn as_type(self) -> JType {
        match self {
            JNativeType::Boolean => JType::Boolean,
            JNativeType::Byte => JType::Byte,
            JNativeType::Char => JType::Char,
            JNativeType::Short => JType::Short,
            JNativeType::Int => JType::Int,
            JNativeType::Long => JType::Long,
            JNativeType::Float => JType::Float,
            JNativeType::Double => JType::Double,
        }
    }
}

impl JRefType {
    /// The number by which the runtime names this kind of reference.
    pub open spec fn code(self) -> int {
        match self {
            JRefType::Invalid => 0,
            JRefType::Local => 1,
            JRefType::Global => 2,
            JRefType::WeakGlobal => 3,
        }
    }

    /// Convert this JRefType to the ffi-safe equivalent enum
    pub fn as_ffi(&self) -> (r: JObjectRefType)
        ensures
            r.code() == self.code(),
    {
        match self {
            JRefType::Invalid => JObjectRefType::JNIInvalidRefType,
            JRefType::Local => JObjectRefType::JNILocalRefType,
            JRefType::Global => JObjectRefType::JNIGlobalRefType,
            JRefType::WeakGlobal => JObjectRefType::JNIWeakGlobalRefType,
        }
    }

}

impl From<JObjectRefType> for JRefType {
    fn from(val: JObjectRefType) -> (r: JRefType) {
        match val {
            JObjectRefType::JNIInvalidRefType => JRefType::Invalid,
            JObjectRefType::JNILocalRefType => JRefType::Local,
            JObjectRefType::JNIGlobalRefType => JRefType::Global,
            JObjectRefType::JNIWeakGlobalRefType => JRefType::WeakGlobal,
        }
    }
}

impl vstd::std_specs::convert::FromSpecImpl<JObjectRefType> for JRefType {
    open spec fn obeys_from_spec() -> bool {
        true
    }

    /// The kind of reference that the runtime reported: the one with the same
    /// number.
    open spec fn from_spec(val: JObjectRefType) -> JRefType {
        match val {
            JObjectRefType::JNIInvalidRefType => JRefType::Invalid,
            JObjectRefType::JNILocalRefType => JRefType::Local,
            JObjectRefType::JNIGlobalRefType => JRefType::Global,
            JObjectRefType::JNIWeakGlobalRefType => JRefType::WeakGlobal,
        }
    }
}

} // verus!
