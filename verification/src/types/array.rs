//! Arrays of primitive values: their handles, the views that the runtime
//! lends on them, and the buffers that are copied from and to them.
//!
//! Each array is at any time in one of three states: no view is open, a held
//! view is open, or a critical view is open. A view is opened by a request and
//! is closed by a release with a disposition. The runtime does not say what
//! happens when a second view is requested on an array while one is open, so
//! the caller must not do that. [`ViewState`] is that rule as a state machine.

use std::marker::PhantomData;
use vstd::prelude::*;
use crate::error::{Error, ErrorView};
use crate::ffi::constants::{JNI_ABORT, JNI_COMMIT, JNI_ERR};
use crate::types::cast::{IsObject, JavaDownCast};
use crate::types::jtype::JNativeType;
use crate::types::object::{
    JArray, JBooleanArray, JByteArray, JCharArray, JDoubleArray, JFloatArray, JIntArray,
    JLongArray, JShortArray,
};

verus! {

/// An enum representing any java primitive array type. Can be converted into its backing reference
/// through [`as_jarray`][Self::as_jarray]
#[derive(Debug)]
pub enum JNativeArray<'a> {
    /// Java primitive boolean array
    Boolean(JBooleanArray<'a>),
    /// Java primitive byte array
    Byte(JByteArray<'a>),
    /// Java primitive char array
    Char(JCharArray<'a>),
    /// Java primitive short array
    Short(JShortArray<'a>),
    /// Java primitive int array
    Int(JIntArray<'a>),
    /// Java primitive long array
    Long(JLongArray<'a>),
    /// Java primitive float array
    Float(JFloatArray<'a>),
    /// Java primitive double array
    Double(JDoubleArray<'a>),
}

impl<'a> JNativeArray<'a> {
    /// The element type of the array.
    pub open spec fn spec_jtype(&self) -> JNativeType {
        match self {
            JNativeArray::Boolean(_) => JNativeType::Boolean,
            JNativeArray::Byte(_) => JNativeType::Byte,
            JNativeArray::Char(_) => JNativeType::Char,
            JNativeArray::Short(_) => JNativeType::Short,
            JNativeArray::Int(_) => JNativeType::Int,
            JNativeArray::Long(_) => JNativeType::Long,
            JNativeArray::Float(_) => JNativeType::Float,
            JNativeArray::Double(_) => JNativeType::Double,
        }
    }

    /// The address that the array's handle holds.
    pub open spec fn addr(&self) -> usize {
        match self {
            JNativeArray::Boolean(arr) => arr.addr(),
            JNativeArray::Byte(arr) => arr.addr(),
            JNativeArray::Char(arr) => arr.addr(),
            JNativeArray::Short(arr) => arr.addr(),
            JNativeArray::Int(arr) => arr.addr(),
            JNativeArray::Long(arr) => arr.addr(),
            JNativeArray::Float(arr) => arr.addr(),
            JNativeArray::Double(arr) => arr.addr(),
        }
    }

    /// The context named by the error of making an array handle of type `ty`
    /// from a null pointer.
    pub open spec fn constructor(ty: JNativeType) -> Seq<char> {
        match ty {
            JNativeType::Boolean => "JBooleanArray Constructor"@,
            JNativeType::Byte => "JByteArray Constructor"@,
            JNativeType::Char => "JCharArray Constructor"@,
            JNativeType::Short => "JShortArray Constructor"@,
            JNativeType::Int => "JIntArray Constructor"@,
            JNativeType::Long => "JLongArray Constructor"@,
            JNativeType::Float => "JFloatArray Constructor"@,
            JNativeType::Double => "JDoubleArray Constructor"@,
        }
    }

    /// Create a new JNativeArray from a backing pointer and array type. The
    /// caller vouches that the array has this element type.
    pub fn new_raw(arr: usize, ty: JNativeType) -> (r: Result<JNativeArray<'a>, Error>)
        ensures
            match r {
                Ok(a) => arr != 0 && a.addr() == arr && a.spec_jtype() == ty,
                Err(e) => arr == 0 && e@ == ErrorView::NullPointer(JNativeArray::constructor(ty)),
            },
    {
        match ty {
            JNativeType::Boolean => match JBooleanArray::new(arr) {
                Ok(h) => Ok(JNativeArray::Boolean(h)),
                Err(e) => Err(e),
            },
            JNativeType::Byte => match JByteArray::new(arr) {
                Ok(h) => Ok(JNativeArray::Byte(h)),
                Err(e) => Err(e),
            },
            JNativeType::Char => match JCharArray::new(arr) {
                Ok(h) => Ok(JNativeArray::Char(h)),
                Err(e) => Err(e),
            },
            JNativeType::Short => match JShortArray::new(arr) {
                Ok(h) => Ok(JNativeArray::Short(h)),
                Err(e) => Err(e),
            },
            JNativeType::Int => match JIntArray::new(arr) {
                Ok(h) => Ok(JNativeArray::Int(h)),
                Err(e) => Err(e),
            },
            JNativeType::Long => match JLongArray::new(arr) {
                Ok(h) => Ok(JNativeArray::Long(h)),
                Err(e) => Err(e),
            },
            JNativeType::Float => match JFloatArray::new(arr) {
                Ok(h) => Ok(JNativeArray::Float(h)),
                Err(e) => Err(e),
            },
            JNativeType::Double => match JDoubleArray::new(arr) {
                Ok(h) => Ok(JNativeArray::Double(h)),
                Err(e) => Err(e),
            },
        }
    }

    /// Get the backing reference of this object as a generic JArray reference
    pub fn as_jarray(&self) -> (r: JArray<'_>)
        ensures
            r.addr() == self.addr(),
    {
        match self {
            JNativeArray::Boolean(arr) => <&JBooleanArray as JavaDownCast<JArray>>::downcast(arr),
            JNativeArray::Byte(arr) => <&JByteArray as JavaDownCast<JArray>>::downcast(arr),
            JNativeArray::Char(arr) => <&JCharArray as JavaDownCast<JArray>>::downcast(arr),
            JNativeArray::Short(arr) => <&JShortArray as JavaDownCast<JArray>>::downcast(arr),
            JNativeArray::Int(arr) => <&JIntArray as JavaDownCast<JArray>>::downcast(arr),
            JNativeArray::Long(arr) => <&JLongArray as JavaDownCast<JArray>>::downcast(arr),
            JNativeArray::Float(arr) => <&JFloatArray as JavaDownCast<JArray>>::downcast(arr),
            JNativeArray::Double(arr) => <&JDoubleArray as JavaDownCast<JArray>>::downcast(arr),
        }
    }

    /// Get the JNativeType associated with this Array
    #[verifier::when_used_as_spec(spec_jtype)]
    pub fn jtype(&self) -> (ty: JNativeType)
        ensures
            ty == self.spec_jtype(),
    {
        match self {
            JNativeArray::Boolean(_) => JNativeType::Boolean,
            JNativeArray::Byte(_) => JNativeType::Byte,
            JNativeArray::Char(_) => JNativeType::Char,
            JNativeArray::Short(_) => JNativeType::Short,
            JNativeArray::Int(_) => JNativeType::Int,
            JNativeArray::Long(_) => JNativeType::Long,
            JNativeArray::Float(_) => JNativeType::Float,
            JNativeArray::Double(_) => JNativeType::Double,
        }
    }

    /// Get the backing pointer of this array. The pointer may be used without
    /// the safety provided by this object
    pub fn borrow_ptr(&self) -> (ptr: usize)
        ensures
            ptr == self.addr(),
            ptr != 0,
    {
        match self {
            JNativeArray::Boolean(arr) => arr.borrow_ptr(),
            JNativeArray::Byte(arr) => arr.borrow_ptr(),
            JNativeArray::Char(arr) => arr.borrow_ptr(),
            JNativeArray::Short(arr) => arr.borrow_ptr(),
            JNativeArray::Int(arr) => arr.borrow_ptr(),
            JNativeArray::Long(arr) => arr.borrow_ptr(),
            JNativeArray::Float(arr) => arr.borrow_ptr(),
            JNativeArray::Double(arr) => arr.borrow_ptr(),
        }
    }
}

/// An enum representing the various modes used in releasing a java array region
#[derive(Debug, Copy, Clone, PartialEq, Eq, Structural)]
pub enum ReleaseMode {
    /// Copy the values back to the array, then free the slice
    CopyFree,
    /// Copy the values back to the array, but don't free the slice
    Commit,
    /// Don't copy the values back to the array, free the slice
    Abort,
}

impl ReleaseMode {
    /// The number by which the runtime names this mode.
    pub open spec fn code(self) -> i32 {
        match self {
            ReleaseMode::CopyFree => 0,
            ReleaseMode::Commit => JNI_COMMIT,
            ReleaseMode::Abort => JNI_ABORT,
        }
    }

    /// The number by which the runtime names this mode.
    pub fn into_raw(self) -> (code: i32)
        ensures
            code == self.code(),
    {
        match self {
            ReleaseMode::CopyFree => 0,
            ReleaseMode::Commit => JNI_COMMIT,
            ReleaseMode::Abort => JNI_ABORT,
        }
    }
}

impl From<ReleaseMode> for i32 {
    fn from(mode: ReleaseMode) -> (code: i32) {
        mode.into_raw()
    }
}

impl vstd::std_specs::convert::FromSpecImpl<ReleaseMode> for i32 {
    open spec fn obeys_from_spec() -> bool {
        true
    }

    open spec fn from_spec(mode: ReleaseMode) -> i32 {
        mode.code()
    }
}

/// Which view is open on an array.
#[derive(Debug, Copy, Clone, PartialEq, Eq, Structural)]
pub enum ViewState {
    /// No view is open
    NoView,
    /// A view of the whole array is held; the flag says whether the runtime
    /// made a copy for it
    HeldView(bool),
    /// A critical view is open: until it is released the runtime must not be
    /// called, and nothing may be waited for that needs another thread to call it
    CriticalView,
}

impl ViewState {
    /// Whether a view is open.
    pub open spec fn is_open(self) -> bool {
        self != ViewState::NoView
    }

    /// The state after a held view was requested and granted, if the request
    /// is allowed in this state.
    pub open spec fn held(self, is_copy: bool) -> Option<ViewState> {
        if self.is_open() {
            None
        } else {
            Some(ViewState::HeldView(is_copy))
        }
    }

    /// The state after a critical view was requested and granted, if the
    /// request is allowed in this state.
    pub open spec fn critical(self) -> Option<ViewState> {
        if self.is_open() {
            None
        } else {
            Some(ViewState::CriticalView)
        }
    }

    /// The state after the open view was released, if one is open.
    pub open spec fn released(self) -> Option<ViewState> {
        if self.is_open() {
            Some(ViewState::NoView)
        } else {
            None
        }
    }

    /// The error of a request that is not allowed while a view is open.
    pub open spec fn already_open() -> ErrorView {
        ErrorView::General("An array view is already open"@, JNI_ERR as int)
    }

    /// The error of a release when no view is open.
    pub open spec fn none_open() -> ErrorView {
        ErrorView::General("No array view is open"@, JNI_ERR as int)
    }

    /// Request a held view; `is_copy` is what the runtime said of the buffer
    /// it handed out. Rejected while a view is open.
    pub fn request_held(self, is_copy: bool) -> (r: Result<ViewState, Error>)
        ensures
            match r {
                Ok(next) => self.held(is_copy) == Some(next),
                Err(e) => self.held(is_copy) is None && e@ == ViewState::already_open(),
            },
    {
        match self {
            ViewState::NoView => Ok(ViewState::HeldView(is_copy)),
            _ => Err(Error::new("An array view is already open", JNI_ERR)),
        }
    }

    /// Request a critical view. Rejected while a view is open.
    pub fn request_critical(self) -> (r: Result<ViewState, Error>)
        ensures
            match r {
                Ok(next) => self.critical() == Some(next),
                Err(e) => self.critical() is None && e@ == ViewState::already_open(),
            },
    {
        match self {
            ViewState::NoView => Ok(ViewState::CriticalView),
            _ => Err(Error::new("An array view is already open", JNI_ERR)),
        }
    }

    /// Release the open view, with any disposition. Rejected when none is open.
    pub fn release(self, mode: ReleaseMode) -> (r: Result<ViewState, Error>)
        ensures
            match r {
                Ok(next) => self.released() == Some(next),
                Err(e) => self.released() is None && e@ == ViewState::none_open(),
            },
    {
        match self {
            ViewState::NoView => Err(Error::new("No array view is open", JNI_ERR)),
            _ => Ok(ViewState::NoView),
        }
    }
}

/// At most one view is open at a time: while one is open, every request is
/// rejected.
pub proof fn lemma_second_view_rejected(state: ViewState, is_copy: bool)
    requires
        state.is_open(),
    ensures
        state.held(is_copy) is None,
        state.critical() is None,
{
}

/// After the open view was released, a request for either kind of view is
/// allowed again.
pub proof fn lemma_release_then_reacquire(state: ViewState, is_copy: bool)
    requires
        state.is_open(),
    ensures
        state.released() == Some(ViewState::NoView),
        state.released().unwrap().held(is_copy) == Some(ViewState::HeldView(is_copy)),
        state.released().unwrap().critical() == Some(ViewState::CriticalView),
{
}

/// A view that the runtime lends on a java primitive array: where the elements
/// lie, how many they are, of which type, and which kind of view it is. It
/// lives no longer than the array handle it was requested on.
#[derive(Debug)]
pub struct JNativeSlice<'a> {
    ty: JNativeType,
    ptr: usize,
    len: usize,
    state: ViewState,
    phantom: PhantomData<&'a ()>,
}

impl<'a> JNativeSlice<'a> {
    #[verifier::type_invariant]
    spec fn well_formed(self) -> bool {
        self.ptr != 0 && self.state.is_open()
    }

    /// The element type of the view.
    pub closed spec fn spec_jtype(&self) -> JNativeType {
        self.ty
    }

    /// The address of the first element.
    pub closed spec fn addr(&self) -> usize {
        self.ptr
    }

    /// The number of elements.
    pub closed spec fn spec_len(&self) -> usize {
        self.len
    }

    /// The state that the array is in while this view is open.
    pub closed spec fn spec_state(&self) -> ViewState {
        self.state
    }

    /// The view that the runtime granted on an array of element type `ty`, in
    /// the state `state` that the request led to.
    pub fn new(ty: JNativeType, ptr: usize, len: usize, state: ViewState) -> (r: Option<
        JNativeSlice<'a>,
    >)
        ensures
            match r {
                Some(s) => ptr != 0 && state.is_open() && s.spec_jtype() == ty && s.addr() == ptr
                    && s.spec_len() == len && s.spec_state() == state,
                None => ptr == 0 || !state.is_open(),
            },
    {
        if ptr == 0 {
            None
        } else {
            match state {
                ViewState::NoView => None,
                _ => Some(JNativeSlice { ty, ptr, len, state, phantom: PhantomData }),
            }
        }
    }

    /// Get the backing pointer of this object. The pointer may be used without
    /// the safety provided by this object
    pub fn borrow_ptr(&self) -> (ptr: usize)
        ensures
            ptr == self.addr(),
            ptr != 0,
    {
        proof {
            use_type_invariant(self);
        }
        self.ptr
    }

    /// Get the JNativeType associated with this Slice
    #[verifier::when_used_as_spec(spec_jtype)]
    pub fn jtype(&self) -> (ty: JNativeType)
        ensures
            ty == self.spec_jtype(),
    {
        self.ty
    }

    /// The number of elements in view
    #[verifier::when_used_as_spec(spec_len)]
    pub fn len(&self) -> (n: usize)
        ensures
            n == self.spec_len(),
    {
        self.len
    }

    /// The state that the array is in while this view is open
    #[verifier::when_used_as_spec(spec_state)]
    pub fn state(&self) -> (state: ViewState)
        ensures
            state == self.spec_state(),
            state.is_open(),
    {
        proof {
            use_type_invariant(self);
        }
        self.state
    }
}

/// An enum representing a vector containing elements of one of the java primitive types
#[derive(Debug)]
pub enum JNativeVec {
    /// Vector of boolean values
    Boolean(Vec<bool>),
    /// Vector of byte values
    Byte(Vec<i8>),
    /// Vector of char values
    Char(Vec<char>),
    /// Vector of short values
    Short(Vec<i16>),
    /// Vector of int values
    Int(Vec<i32>),
    /// Vector of long values
    Long(Vec<i64>),
    /// Vector of float values, as the bits of their encoding
    Float(Vec<u32>),
    /// Vector of double values, as the bits of their encoding
    Double(Vec<u64>),
}

impl JNativeVec {
    /// The element type of the vector.
    pub open spec fn spec_jtype(&self) -> JNativeType {
        match self {
            JNativeVec::Boolean(_) => JNativeType::Boolean,
            JNativeVec::Byte(_) => JNativeType::Byte,
            JNativeVec::Char(_) => JNativeType::Char,
            JNativeVec::Short(_) => JNativeType::Short,
            JNativeVec::Int(_) => JNativeType::Int,
            JNativeVec::Long(_) => JNativeType::Long,
            JNativeVec::Float(_) => JNativeType::Float,
            JNativeVec::Double(_) => JNativeType::Double,
        }
    }

    /// The number of elements of the vector.
    pub open spec fn spec_len(&self) -> nat {
        match self {
            JNativeVec::Boolean(v) => v@.len(),
            JNativeVec::Byte(v) => v@.len(),
            JNativeVec::Char(v) => v@.len(),
            JNativeVec::Short(v) => v@.len(),
            JNativeVec::Int(v) => v@.len(),
            JNativeVec::Long(v) => v@.len(),
            JNativeVec::Float(v) => v@.len(),
            JNativeVec::Double(v) => v@.len(),
        }
    }

    /// Get the JNativeType associated with this Vec
    #[verifier::when_used_as_spec(spec_jtype)]
    pub fn jtype(&self) -> (ty: JNativeType)
        ensures
            ty == self.spec_jtype(),
    {
        match self {
            JNativeVec::Boolean(_) => JNativeType::Boolean,
            JNativeVec::Byte(_) => JNativeType::Byte,
            JNativeVec::Char(_) => JNativeType::Char,
            JNativeVec::Short(_) => JNativeType::Short,
            JNativeVec::Int(_) => JNativeType::Int,
            JNativeVec::Long(_) => JNativeType::Long,
            JNativeVec::Float(_) => JNativeType::Float,
            JNativeVec::Double(_) => JNativeType::Double,
        }
    }

    /// The number of elements of the vector
    pub fn len(&self) -> (n: usize)
        ensures
            n == self.spec_len(),
    {
        match self {
            JNativeVec::Boolean(v) => v.len(),
            JNativeVec::Byte(v) => v.len(),
            JNativeVec::Char(v) => v.len(),
            JNativeVec::Short(v) => v.len(),
            JNativeVec::Int(v) => v.len(),
            JNativeVec::Long(v) => v.len(),
            JNativeVec::Float(v) => v.len(),
            JNativeVec::Double(v) => v.len(),
        }
    }
}

} // verus!
