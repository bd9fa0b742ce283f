//! The entries of the runtime's function table that are chosen by the type of
//! a value: for each family of operations one entry per type. Which entry an
//! operation goes to is decided here; calling it is left to the embedding
//! program.

use vstd::prelude::*;
use crate::types::jtype::{JNativeType, JNonVoidType, JType};

verus! {

/// The three ways of calling a method.
#[derive(Debug, Copy, Clone, PartialEq, Eq, Structural)]
pub enum CallFamily {
    /// A call on an object, dispatched by the class of the object
    Virtual,
    /// A call on an object, of the method as a given class defines it
    Nonvirtual,
    /// A call on a class
    Static,
}

/// The entries that call a method, with the arguments in an array.
#[derive(Debug, Copy, Clone, PartialEq, Eq, Structural)]
pub enum MethodFunction {
    CallObjectMethodA,
    CallBooleanMethodA,
    CallByteMethodA,
    CallCharMethodA,
    CallShortMethodA,
    CallIntMethodA,
    CallLongMethodA,
    CallFloatMethodA,
    CallDoubleMethodA,
    CallVoidMethodA,
    CallNonvirtualObjectMethodA,
    CallNonvirtualBooleanMethodA,
    CallNonvirtualByteMethodA,
    CallNonvirtualCharMethodA,
    CallNonvirtualShortMethodA,
    CallNonvirtualIntMethodA,
    CallNonvirtualLongMethodA,
    CallNonvirtualFloatMethodA,
    CallNonvirtualDoubleMethodA,
    CallNonvirtualVoidMethodA,
    CallStaticObjectMethodA,
    CallStaticBooleanMethodA,
    CallStaticByteMethodA,
    CallStaticCharMethodA,
    CallStaticShortMethodA,
    CallStaticIntMethodA,
    CallStaticLongMethodA,
    CallStaticFloatMethodA,
    CallStaticDoubleMethodA,
    CallStaticVoidMethodA,
}

impl MethodFunction {
    /// The way of calling that the entry belongs to.
    pub open spec fn family(self) -> CallFamily {
        match self {
            MethodFunction::CallObjectMethodA => CallFamily::Virtual,
            MethodFunction::CallBooleanMethodA => CallFamily::Virtual,
            MethodFunction::CallByteMethodA => CallFamily::Virtual,
            MethodFunction::CallCharMethodA => CallFamily::Virtual,
            MethodFunction::CallShortMethodA => CallFamily::Virtual,
            MethodFunction::CallIntMethodA => CallFamily::Virtual,
            MethodFunction::CallLongMethodA => CallFamily::Virtual,
            MethodFunction::CallFloatMethodA => CallFamily::Virtual,
            MethodFunction::CallDoubleMethodA => CallFamily::Virtual,
            MethodFunction::CallVoidMethodA => CallFamily::Virtual,
            MethodFunction::CallNonvirtualObjectMethodA => CallFamily::Nonvirtual,
            MethodFunction::CallNonvirtualBooleanMethodA => CallFamily::Nonvirtual,
            MethodFunction::CallNonvirtualByteMethodA => CallFamily::Nonvirtual,
            MethodFunction::CallNonvirtualCharMethodA => CallFamily::Nonvirtual,
            MethodFunction::CallNonvirtualShortMethodA => CallFamily::Nonvirtual,
            MethodFunction::CallNonvirtualIntMethodA => CallFamily::Nonvirtual,
            MethodFunction::CallNonvirtualLongMethodA => CallFamily::Nonvirtual,
            MethodFunction::CallNonvirtualFloatMethodA => CallFamily::Nonvirtual,
            MethodFunction::CallNonvirtualDoubleMethodA => CallFamily::Nonvirtual,
            MethodFunction::CallNonvirtualVoidMethodA => CallFamily::Nonvirtual,
            MethodFunction::CallStaticObjectMethodA => CallFamily::Static,
            MethodFunction::CallStaticBooleanMethodA => CallFamily::Static,
            MethodFunction::CallStaticByteMethodA => CallFamily::Static,
            MethodFunction::CallStaticCharMethodA => CallFamily::Static,
            MethodFunction::CallStaticShortMethodA => CallFamily::Static,
            MethodFunction::CallStaticIntMethodA => CallFamily::Static,
            MethodFunction::CallStaticLongMethodA => CallFamily::Static,
            MethodFunction::CallStaticFloatMethodA => CallFamily::Static,
            MethodFunction::CallStaticDoubleMethodA => CallFamily::Static,
            MethodFunction::CallStaticVoidMethodA => CallFamily::Static,
        }
    }

    /// The type of what the entry returns.
    pub open spec fn ret_ty(self) -> JType {
        match self {
            MethodFunction::CallObjectMethodA => JType::Object,
            MethodFunction::CallBooleanMethodA => JType::Boolean,
            MethodFunction::CallByteMethodA => JType::Byte,
            MethodFunction::CallCharMethodA => JType::Char,
            MethodFunction::CallShortMethodA => JType::Short,
            MethodFunction::CallIntMethodA => JType::Int,
            MethodFunction::CallLongMethodA => JType::Long,
            MethodFunction::CallFloatMethodA => JType::Float,
            MethodFunction::CallDoubleMethodA => JType::Double,
            MethodFunction::CallVoidMethodA => JType::Void,
            MethodFunction::CallNonvirtualObjectMethodA => JType::Object,
            MethodFunction::CallNonvirtualBooleanMethodA => JType::Boolean,
            MethodFunction::CallNonvirtualByteMethodA => JType::Byte,
            MethodFunction::CallNonvirtualCharMethodA => JType::Char,
            MethodFunction::CallNonvirtualShortMethodA => JType::Short,
            MethodFunction::CallNonvirtualIntMethodA => JType::Int,
            MethodFunction::CallNonvirtualLongMethodA => JType::Long,
            MethodFunction::CallNonvirtualFloatMethodA => JType::Float,
            MethodFunction::CallNonvirtualDoubleMethodA => JType::Double,
            MethodFunction::CallNonvirtualVoidMethodA => JType::Void,
            MethodFunction::CallStaticObjectMethodA => JType::Object,
            MethodFunction::CallStaticBooleanMethodA => JType::Boolean,
            MethodFunction::CallStaticByteMethodA => JType::Byte,
            MethodFunction::CallStaticCharMethodA => JType::Char,
            MethodFunction::CallStaticShortMethodA => JType::Short,
            MethodFunction::CallStaticIntMethodA => JType::Int,
            MethodFunction::CallStaticLongMethodA => JType::Long,
            MethodFunction::CallStaticFloatMethodA => JType::Float,
            MethodFunction::CallStaticDoubleMethodA => JType::Double,
            MethodFunction::CallStaticVoidMethodA => JType::Void,
        }
    }

    /// The entry that calls, in the way `family`, a method that returns `ret`.
    pub fn select(family: CallFamily, ret: JType) -> (f: MethodFunction)
        ensures
            f.family() == family,
            f.ret_ty() == ret,
            forall|g: MethodFunction| g.family() == family && g.ret_ty() == ret ==> g == f,
    {
        match family {
            CallFamily::Virtual => match ret {
                JType::Object => MethodFunction::CallObjectMethodA,
                JType::Boolean => MethodFunction::CallBooleanMethodA,
                JType::Byte => MethodFunction::CallByteMethodA,
                JType::Char => MethodFunction::CallCharMethodA,
                JType::Short => MethodFunction::CallShortMethodA,
                JType::Int => MethodFunction::CallIntMethodA,
                JType::Long => MethodFunction::CallLongMethodA,
                JType::Float => MethodFunction::CallFloatMethodA,
                JType::Double => MethodFunction::CallDoubleMethodA,
                JType::Void => MethodFunction::CallVoidMethodA,
            },
            CallFamily::Nonvirtual => match ret {
                JType::Object => MethodFunction::CallNonvirtualObjectMethodA,
                JType::Boolean => MethodFunction::CallNonvirtualBooleanMethodA,
                JType::Byte => MethodFunction::CallNonvirtualByteMethodA,
                JType::Char => MethodFunction::CallNonvirtualCharMethodA,
                JType::Short => MethodFunction::CallNonvirtualShortMethodA,
                JType::Int => MethodFunction::CallNonvirtualIntMethodA,
                JType::Long => MethodFunction::CallNonvirtualLongMethodA,
                JType::Float => MethodFunction::CallNonvirtualFloatMethodA,
                JType::Double => MethodFunction::CallNonvirtualDoubleMethodA,
                JType::Void => MethodFunction::CallNonvirtualVoidMethodA,
            },
            CallFamily::Static => match ret {
                JType::Object => MethodFunction::CallStaticObjectMethodA,
                JType::Boolean => MethodFunction::CallStaticBooleanMethodA,
                JType::Byte => MethodFunction::CallStaticByteMethodA,
                JType::Char => MethodFunction::CallStaticCharMethodA,
                JType::Short => MethodFunction::CallStaticShortMethodA,
                JType::Int => MethodFunction::CallStaticIntMethodA,
                JType::Long => MethodFunction::CallStaticLongMethodA,
                JType::Float => MethodFunction::CallStaticFloatMethodA,
                JType::Double => MethodFunction::CallStaticDoubleMethodA,
                JType::Void => MethodFunction::CallStaticVoidMethodA,
            },
        }
    }
}

/// The four ways of reaching a field.
#[derive(Debug, Copy, Clone, PartialEq, Eq, Structural)]
pub enum FieldAccess {
    /// Read a field of an object
    Read,
    /// Read a field of a class
    ReadStatic,
    /// Write a field of an object
    Write,
    /// Write a field of a class
    WriteStatic,
}

/// The entries that read or write a field.
#[derive(Debug, Copy, Clone, PartialEq, Eq, Structural)]
pub enum FieldFunction {
    GetObjectField,
    GetBooleanField,
    GetByteField,
    GetCharField,
    GetShortField,
    GetIntField,
    GetLongField,
    GetFloatField,
    GetDoubleField,
    GetStaticObjectField,
    GetStaticBooleanField,
    GetStaticByteField,
    GetStaticCharField,
    GetStaticShortField,
    GetStaticIntField,
    GetStaticLongField,
    GetStaticFloatField,
    GetStaticDoubleField,
    SetObjectField,
    SetBooleanField,
    SetByteField,
    SetCharField,
    SetShortField,
    SetIntField,
    SetLongField,
    SetFloatField,
    SetDoubleField,
    SetStaticObjectField,
    SetStaticBooleanField,
    SetStaticByteField,
    SetStaticCharField,
    SetStaticShortField,
    SetStaticIntField,
    SetStaticLongField,
    SetStaticFloatField,
    SetStaticDoubleField,
}

impl FieldFunction {
    /// The way of reaching a field that the entry belongs to.
    pub open spec fn access(self) -> FieldAccess {
        match self {
            FieldFunction::GetObjectField => FieldAccess::Read,
            FieldFunction::GetBooleanField => FieldAccess::Read,
            FieldFunction::GetByteField => FieldAccess::Read,
            FieldFunction::GetCharField => FieldAccess::Read,
            FieldFunction::GetShortField => FieldAccess::Read,
            FieldFunction::GetIntField => FieldAccess::Read,
            FieldFunction::GetLongField => FieldAccess::Read,
            FieldFunction::GetFloatField => FieldAccess::Read,
            FieldFunction::GetDoubleField => FieldAccess::Read,
            FieldFunction::GetStaticObjectField => FieldAccess::ReadStatic,
            FieldFunction::GetStaticBooleanField => FieldAccess::ReadStatic,
            FieldFunction::GetStaticByteField => FieldAccess::ReadStatic,
            FieldFunction::GetStaticCharField => FieldAccess::ReadStatic,
            FieldFunction::GetStaticShortField => FieldAccess::ReadStatic,
            FieldFunction::GetStaticIntField => FieldAccess::ReadStatic,
            FieldFunction::GetStaticLongField => FieldAccess::ReadStatic,
            FieldFunction::GetStaticFloatField => FieldAccess::ReadStatic,
            FieldFunction::GetStaticDoubleField => FieldAccess::ReadStatic,
            FieldFunction::SetObjectField => FieldAccess::Write,
            FieldFunction::SetBooleanField => FieldAccess::Write,
            FieldFunction::SetByteField => FieldAccess::Write,
            FieldFunction::SetCharField => FieldAccess::Write,
            FieldFunction::SetShortField => FieldAccess::Write,
            FieldFunction::SetIntField => FieldAccess::Write,
            FieldFunction::SetLongField => FieldAccess::Write,
            FieldFunction::SetFloatField => FieldAccess::Write,
            FieldFunction::SetDoubleField => FieldAccess::Write,
            FieldFunction::SetStaticObjectField => FieldAccess::WriteStatic,
            FieldFunction::SetStaticBooleanField => FieldAccess::WriteStatic,
            FieldFunction::SetStaticByteField => FieldAccess::WriteStatic,
            FieldFunction::SetStaticCharField => FieldAccess::WriteStatic,
            FieldFunction::SetStaticShortField => FieldAccess::WriteStatic,
            FieldFunction::SetStaticIntField => FieldAccess::WriteStatic,
            FieldFunction::SetStaticLongField => FieldAccess::WriteStatic,
            FieldFunction::SetStaticFloatField => FieldAccess::WriteStatic,
            FieldFunction::SetStaticDoubleField => FieldAccess::WriteStatic,
        }
    }

    /// The type of the field that the entry reads or writes.
    pub open spec fn ty(self) -> JNonVoidType {
        match self {
            FieldFunction::GetObjectField => JNonVoidType::Object,
            FieldFunction::GetBooleanField => JNonVoidType::Boolean,
            FieldFunction::GetByteField => JNonVoidType::Byte,
            FieldFunction::GetCharField => JNonVoidType::Char,
            FieldFunction::GetShortField => JNonVoidType::Short,
            FieldFunction::GetIntField => JNonVoidType::Int,
            FieldFunction::GetLongField => JNonVoidType::Long,
            FieldFunction::GetFloatField => JNonVoidType::Float,
            FieldFunction::GetDoubleField => JNonVoidType::Double,
            FieldFunction::GetStaticObjectField => JNonVoidType::Object,
            FieldFunction::GetStaticBooleanField => JNonVoidType::Boolean,
            FieldFunction::GetStaticByteField => JNonVoidType::Byte,
            FieldFunction::GetStaticCharField => JNonVoidType::Char,
            FieldFunction::GetStaticShortField => JNonVoidType::Short,
            FieldFunction::GetStaticIntField => JNonVoidType::Int,
            FieldFunction::GetStaticLongField => JNonVoidType::Long,
            FieldFunction::GetStaticFloatField => JNonVoidType::Float,
            FieldFunction::GetStaticDoubleField => JNonVoidType::Double,
            FieldFunction::SetObjectField => JNonVoidType::Object,
            FieldFunction::SetBooleanField => JNonVoidType::Boolean,
            FieldFunction::SetByteField => JNonVoidType::Byte,
            FieldFunction::SetCharField => JNonVoidType::Char,
            FieldFunction::SetShortField => JNonVoidType::Short,
            FieldFunction::SetIntField => JNonVoidType::Int,
            FieldFunction::SetLongField => JNonVoidType::Long,
            FieldFunction::SetFloatField => JNonVoidType::Float,
            FieldFunction::SetDoubleField => JNonVoidType::Double,
            FieldFunction::SetStaticObjectField => JNonVoidType::Object,
            FieldFunction::SetStaticBooleanField => JNonVoidType::Boolean,
            FieldFunction::SetStaticByteField => JNonVoidType::Byte,
            FieldFunction::SetStaticCharField => JNonVoidType::Char,
            FieldFunction::SetStaticShortField => JNonVoidType::Short,
            FieldFunction::SetStaticIntField => JNonVoidType::Int,
            FieldFunction::SetStaticLongField => JNonVoidType::Long,
            FieldFunction::SetStaticFloatField => JNonVoidType::Float,
            FieldFunction::SetStaticDoubleField => JNonVoidType::Double,
        }
    }

    /// The entry that reaches, in the way `access`, a field of type `ty`.
    pub fn select(access: FieldAccess, ty: JNonVoidType) -> (f: FieldFunction)
        ensures
            f.access() == access,
            f.ty() == ty,
            forall|g: FieldFunction| g.access() == access && g.ty() == ty ==> g == f,
    {
        match access {
            FieldAccess::Read => match ty {
                JNonVoidType::Object => FieldFunction::GetObjectField,
                JNonVoidType::Boolean => FieldFunction::GetBooleanField,
                JNonVoidType::Byte => FieldFunction::GetByteField,
                JNonVoidType::Char => FieldFunction::GetCharField,
                JNonVoidType::Short => FieldFunction::GetShortField,
                JNonVoidType::Int => FieldFunction::GetIntField,
                JNonVoidType::Long => FieldFunction::GetLongField,
                JNonVoidType::Float => FieldFunction::GetFloatField,
                JNonVoidType::Double => FieldFunction::GetDoubleField,
            },
            FieldAccess::ReadStatic => match ty {
                JNonVoidType::Object => FieldFunction::GetStaticObjectField,
                JNonVoidType::Boolean => FieldFunction::GetStaticBooleanField,
                JNonVoidType::Byte => FieldFunction::GetStaticByteField,
                JNonVoidType::Char => FieldFunction::GetStaticCharField,
                JNonVoidType::Short => FieldFunction::GetStaticShortField,
                JNonVoidType::Int => FieldFunction::GetStaticIntField,
                JNonVoidType::Long => FieldFunction::GetStaticLongField,
                JNonVoidType::Float => FieldFunction::GetStaticFloatField,
                JNonVoidType::Double => FieldFunction::GetStaticDoubleField,
            },
            FieldAccess::Write => match ty {
                JNonVoidType::Object => FieldFunction::SetObjectField,
                JNonVoidType::Boolean => FieldFunction::SetBooleanField,
                JNonVoidType::Byte => FieldFunction::SetByteField,
                JNonVoidType::Char => FieldFunction::SetCharField,
                JNonVoidType::Short => FieldFunction::SetShortField,
                JNonVoidType::Int => FieldFunction::SetIntField,
                JNonVoidType::Long => FieldFunction::SetLongField,
                JNonVoidType::Float => FieldFunction::SetFloatField,
                JNonVoidType::Double => FieldFunction::SetDoubleField,
            },
            FieldAccess::WriteStatic => match ty {
                JNonVoidType::Object => FieldFunction::SetStaticObjectField,
                JNonVoidType::Boolean => FieldFunction::SetStaticBooleanField,
                JNonVoidType::Byte => FieldFunction::SetStaticByteField,
                JNonVoidType::Char => FieldFunction::SetStaticCharField,
                JNonVoidType::Short => FieldFunction::SetStaticShortField,
                JNonVoidType::Int => FieldFunction::SetStaticIntField,
                JNonVoidType::Long => FieldFunction::SetStaticLongField,
                JNonVoidType::Float => FieldFunction::SetStaticFloatField,
                JNonVoidType::Double => FieldFunction::SetStaticDoubleField,
            },
        }
    }
}

/// The five operations on an array of primitive values that have one entry
/// per element type.
#[derive(Debug, Copy, Clone, PartialEq, Eq, Structural)]
pub enum ArrayOperation {
    /// Make a new array
    New,
    /// Request a view of all elements
    GetElements,
    /// Release a view of all elements
    ReleaseElements,
    /// Copy a region of the array into a buffer
    GetRegion,
    /// Copy a buffer into a region of the array
    SetRegion,
}

/// The entries that work on an array of primitive values.
#[derive(Debug, Copy, Clone, PartialEq, Eq, Structural)]
pub enum ArrayFunction {
    NewBooleanArray,
    NewByteArray,
    NewCharArray,
    NewShortArray,
    NewIntArray,
    NewLongArray,
    NewFloatArray,
    NewDoubleArray,
    GetBooleanArrayElements,
    GetByteArrayElements,
    GetCharArrayElements,
    GetShortArrayElements,
    GetIntArrayElements,
    GetLongArrayElements,
    GetFloatArrayElements,
    GetDoubleArrayElements,
    ReleaseBooleanArrayElements,
    ReleaseByteArrayElements,
    ReleaseCharArrayElements,
    ReleaseShortArrayElements,
    ReleaseIntArrayElements,
    ReleaseLongArrayElements,
    ReleaseFloatArrayElements,
    ReleaseDoubleArrayElements,
    GetBooleanArrayRegion,
    GetByteArrayRegion,
    GetCharArrayRegion,
    GetShortArrayRegion,
    GetIntArrayRegion,
    GetLongArrayRegion,
    GetFloatArrayRegion,
    GetDoubleArrayRegion,
    SetBooleanArrayRegion,
    SetByteArrayRegion,
    SetCharArrayRegion,
    SetShortArrayRegion,
    SetIntArrayRegion,
    SetLongArrayRegion,
    SetFloatArrayRegion,
    SetDoubleArrayRegion,
}

impl ArrayFunction {
    /// The operation that the entry performs.
    pub open spec fn operation(self) -> ArrayOperation {
        match self {
            ArrayFunction::NewBooleanArray => ArrayOperation::New,
            ArrayFunction::NewByteArray => ArrayOperation::New,
            ArrayFunction::NewCharArray => ArrayOperation::New,
            ArrayFunction::NewShortArray => ArrayOperation::New,
            ArrayFunction::NewIntArray => ArrayOperation::New,
            ArrayFunction::NewLongArray => ArrayOperation::New,
            ArrayFunction::NewFloatArray => ArrayOperation::New,
            ArrayFunction::NewDoubleArray => ArrayOperation::New,
            ArrayFunction::GetBooleanArrayElements => ArrayOperation::GetElements,
            ArrayFunction::GetByteArrayElements => ArrayOperation::GetElements,
            ArrayFunction::GetCharArrayElements => ArrayOperation::GetElements,
            ArrayFunction::GetShortArrayElements => ArrayOperation::GetElements,
            ArrayFunction::GetIntArrayElements => ArrayOperation::GetElements,
            ArrayFunction::GetLongArrayElements => ArrayOperation::GetElements,
            ArrayFunction::GetFloatArrayElements => ArrayOperation::GetElements,
            ArrayFunction::GetDoubleArrayElements => ArrayOperation::GetElements,
            ArrayFunction::ReleaseBooleanArrayElements => ArrayOperation::ReleaseElements,
            ArrayFunction::ReleaseByteArrayElements => ArrayOperation::ReleaseElements,
            ArrayFunction::ReleaseCharArrayElements => ArrayOperation::ReleaseElements,
            ArrayFunction::ReleaseShortArrayElements => ArrayOperation::ReleaseElements,
            ArrayFunction::ReleaseIntArrayElements => ArrayOperation::ReleaseElements,
            ArrayFunction::ReleaseLongArrayElements => ArrayOperation::ReleaseElements,
            ArrayFunction::ReleaseFloatArrayElements => ArrayOperation::ReleaseElements,
            ArrayFunction::ReleaseDoubleArrayElements => ArrayOperation::ReleaseElements,
            ArrayFunction::GetBooleanArrayRegion => ArrayOperation::GetRegion,
            ArrayFunction::GetByteArrayRegion => ArrayOperation::GetRegion,
            ArrayFunction::GetCharArrayRegion => ArrayOperation::GetRegion,
            ArrayFunction::GetShortArrayRegion => ArrayOperation::GetRegion,
            ArrayFunction::GetIntArrayRegion => ArrayOperation::GetRegion,
            ArrayFunction::GetLongArrayRegion => ArrayOperation::GetRegion,
            ArrayFunction::GetFloatArrayRegion => ArrayOperation::GetRegion,
            ArrayFunction::GetDoubleArrayRegion => ArrayOperation::GetRegion,
            ArrayFunction::SetBooleanArrayRegion => ArrayOperation::SetRegion,
            ArrayFunction::SetByteArrayRegion => ArrayOperation::SetRegion,
            ArrayFunction::SetCharArrayRegion => ArrayOperation::SetRegion,
            ArrayFunction::SetShortArrayRegion => ArrayOperation::SetRegion,
            ArrayFunction::SetIntArrayRegion => ArrayOperation::SetRegion,
            ArrayFunction::SetLongArrayRegion => ArrayOperation::SetRegion,
            ArrayFunction::SetFloatArrayRegion => ArrayOperation::SetRegion,
            ArrayFunction::SetDoubleArrayRegion => ArrayOperation::SetRegion,
        }
    }

    /// The element type of the arrays that the entry works on.
    pub open spec fn ty(self) -> JNativeType {
        match self {
            ArrayFunction::NewBooleanArray => JNativeType::Boolean,
            ArrayFunction::NewByteArray => JNativeType::Byte,
            ArrayFunction::NewCharArray => JNativeType::Char,
            ArrayFunction::NewShortArray => JNativeType::Short,
            ArrayFunction::NewIntArray => JNativeType::Int,
            ArrayFunction::NewLongArray => JNativeType::Long,
            ArrayFunction::NewFloatArray => JNativeType::Float,
            ArrayFunction::NewDoubleArray => JNativeType::Double,
            ArrayFunction::GetBooleanArrayElements => JNativeType::Boolean,
            ArrayFunction::GetByteArrayElements => JNativeType::Byte,
            ArrayFunction::GetCharArrayElements => JNativeType::Char,
            ArrayFunction::GetShortArrayElements => JNativeType::Short,
            ArrayFunction::GetIntArrayElements => JNativeType::Int,
            ArrayFunction::GetLongArrayElements => JNativeType::Long,
            ArrayFunction::GetFloatArrayElements => JNativeType::Float,
            ArrayFunction::GetDoubleArrayElements => JNativeType::Double,
            ArrayFunction::ReleaseBooleanArrayElements => JNativeType::Boolean,
            ArrayFunction::ReleaseByteArrayElements => JNativeType::Byte,
            ArrayFunction::ReleaseCharArrayElements => JNativeType::Char,
            ArrayFunction::ReleaseShortArrayElements => JNativeType::Short,
            ArrayFunction::ReleaseIntArrayElements => JNativeType::Int,
            ArrayFunction::ReleaseLongArrayElements => JNativeType::Long,
            ArrayFunction::ReleaseFloatArrayElements => JNativeType::Float,
            ArrayFunction::ReleaseDoubleArrayElements => JNativeType::Double,
            ArrayFunction::GetBooleanArrayRegion => JNativeType::Boolean,
            ArrayFunction::GetByteArrayRegion => JNativeType::Byte,
            ArrayFunction::GetCharArrayRegion => JNativeType::Char,
            ArrayFunction::GetShortArrayRegion => JNativeType::Short,
            ArrayFunction::GetIntArrayRegion => JNativeType::Int,
            ArrayFunction::GetLongArrayRegion => JNativeType::Long,
            ArrayFunction::GetFloatArrayRegion => JNativeType::Float,
            ArrayFunction::GetDoubleArrayRegion => JNativeType::Double,
            ArrayFunction::SetBooleanArrayRegion => JNativeType::Boolean,
            ArrayFunction::SetByteArrayRegion => JNativeType::Byte,
            ArrayFunction::SetCharArrayRegion => JNativeType::Char,
            ArrayFunction::SetShortArrayRegion => JNativeType::Short,
            ArrayFunction::SetIntArrayRegion => JNativeType::Int,
            ArrayFunction::SetLongArrayRegion => JNativeType::Long,
            ArrayFunction::SetFloatArrayRegion => JNativeType::Float,
            ArrayFunction::SetDoubleArrayRegion => JNativeType::Double,
        }
    }

    /// The entry that performs `operation` on arrays of element type `ty`.
    pub fn select(operation: ArrayOperation, ty: JNativeType) -> (f: ArrayFunction)
        ensures
            f.operation() == operation,
            f.ty() == ty,
            forall|g: ArrayFunction| g.operation() == operation && g.ty() == ty ==> g == f,
    {
        match operation {
            ArrayOperation::New => match ty {
                JNativeType::Boolean => ArrayFunction::NewBooleanArray,
                JNativeType::Byte => ArrayFunction::NewByteArray,
                JNativeType::Char => ArrayFunction::NewCharArray,
                JNativeType::Short => ArrayFunction::NewShortArray,
                JNativeType::Int => ArrayFunction::NewIntArray,
                JNativeType::Long => ArrayFunction::NewLongArray,
                JNativeType::Float => ArrayFunction::NewFloatArray,
                JNativeType::Double => ArrayFunction::NewDoubleArray,
            },
            ArrayOperation::GetElements => match ty {
                JNativeType::Boolean => ArrayFunction::GetBooleanArrayElements,
                JNativeType::Byte => ArrayFunction::GetByteArrayElements,
                JNativeType::Char => ArrayFunction::GetCharArrayElements,
                JNativeType::Short => ArrayFunction::GetShortArrayElements,
                JNativeType::Int => ArrayFunction::GetIntArrayElements,
                JNativeType::Long => ArrayFunction::GetLongArrayElements,
                JNativeType::Float => ArrayFunction::GetFloatArrayElements,
                JNativeType::Double => ArrayFunction::GetDoubleArrayElements,
            },
            ArrayOperation::ReleaseElements => match ty {
                JNativeType::Boolean => ArrayFunction::ReleaseBooleanArrayElements,
                JNativeType::Byte => ArrayFunction::ReleaseByteArrayElements,
                JNativeType::Char => ArrayFunction::ReleaseCharArrayElements,
                JNativeType::Short => ArrayFunction::ReleaseShortArrayElements,
                JNativeType::Int => ArrayFunction::ReleaseIntArrayElements,
                JNativeType::Long => ArrayFunction::ReleaseLongArrayElements,
                JNativeType::Float => ArrayFunction::ReleaseFloatArrayElements,
                JNativeType::Double => ArrayFunction::ReleaseDoubleArrayElements,
            },
            ArrayOperation::GetRegion => match ty {
                JNativeType::Boolean => ArrayFunction::GetBooleanArrayRegion,
                JNativeType::Byte => ArrayFunction::GetByteArrayRegion,
                JNativeType::Char => ArrayFunction::GetCharArrayRegion,
                JNativeType::Short => ArrayFunction::GetShortArrayRegion,
                JNativeType::Int => ArrayFunction::GetIntArrayRegion,
                JNativeType::Long => ArrayFunction::GetLongArrayRegion,
                JNativeType::Float => ArrayFunction::GetFloatArrayRegion,
                JNativeType::Double => ArrayFunction::GetDoubleArrayRegion,
            },
            ArrayOperation::SetRegion => match ty {
                JNativeType::Boolean => ArrayFunction::SetBooleanArrayRegion,
                JNativeType::Byte => ArrayFunction::SetByteArrayRegion,
                JNativeType::Char => ArrayFunction::SetCharArrayRegion,
                JNativeType::Short => ArrayFunction::SetShortArrayRegion,
                JNativeType::Int => ArrayFunction::SetIntArrayRegion,
                JNativeType::Long => ArrayFunction::SetLongArrayRegion,
                JNativeType::Float => ArrayFunction::SetFloatArrayRegion,
                JNativeType::Double => ArrayFunction::SetDoubleArrayRegion,
            },
        }
    }
}

} // verus!
