//! The versions of the native interface.

use vstd::prelude::*;
use crate::ffi::constants;

verus! {

/// An enum containing variants representing all the supported JNI versions
#[derive(Debug, Copy, Clone, PartialEq, Eq, Structural)]
pub enum JNIVersion {
    /// JNI 1.1
    Ver11,
    /// JNI 1.2
    Ver12,
    /// JNI 1.4
    Ver14,
    /// JNI 1.6
    Ver16,
    /// JNI 1.8
    Ver18,
    /// JNI 9
    Ver9,
    /// JNI 10
    Ver10,
}

impl JNIVersion {
    /// The number by which the runtime names this version.
    pub open spec fn code(self) -> i32 {
        match self {
            JNIVersion::Ver11 => constants::JNI_VERSION_1_1,
            JNIVersion::Ver12 => constants::JNI_VERSION_1_2,
            JNIVersion::Ver14 => constants::JNI_VERSION_1_4,
            JNIVersion::Ver16 => constants::JNI_VERSION_1_6,
            JNIVersion::Ver18 => constants::JNI_VERSION_1_8,
            JNIVersion::Ver9 => constants::JNI_VERSION_9,
            JNIVersion::Ver10 => constants::JNI_VERSION_10,
        }
    }

    /// Whether `val` names a supported version.
    pub open spec fn is_code(val: i32) -> bool {
        exists|v: JNIVersion| v.code() == val
    }

    /// The version that `val` names, if it names one.
    pub fn checked_from(val: i32) -> (r: Option<JNIVersion>)
        ensures
            match r {
                Some(v) => v.code() == val,
                None => !JNIVersion::is_code(val),
            },
    {
        if val == constants::JNI_VERSION_1_1 {
            Some(JNIVersion::Ver11)
        } else if val == constants::JNI_VERSION_1_2 {
            Some(JNIVersion::Ver12)
        } else if val == constants::JNI_VERSION_1_4 {
            Some(JNIVersion::Ver14)
        } else if val == constants::JNI_VERSION_1_6 {
            Some(JNIVersion::Ver16)
        } else if val == constants::JNI_VERSION_1_8 {
            Some(JNIVersion::Ver18)
        } else if val == constants::JNI_VERSION_9 {
            Some(JNIVersion::Ver9)
        } else if val == constants::JNI_VERSION_10 {
            Some(JNIVersion::Ver10)
        } else {
            assert forall|v: JNIVersion| v.code() != val by {
                match v {
                    JNIVersion::Ver11 => {},
                    JNIVersion::Ver12 => {},
                    JNIVersion::Ver14 => {},
                    JNIVersion::Ver16 => {},
                    JNIVersion::Ver18 => {},
                    JNIVersion::Ver9 => {},
                    JNIVersion::Ver10 => {},
                }
            }
            None
        }
    }

    /// The version that `val` names.
    pub fn from(val: i32) -> (v: JNIVersion)
        requires
            JNIVersion::is_code(val),
        ensures
            v.code() == val,
    {
        match JNIVersion::checked_from(val) {
            Some(v) => v,
            None => {
                proof {
                    assert(false);
                }
                JNIVersion::Ver11
            },
        }
    }

    /// The number by which the runtime names this version.
    pub fn into_raw(self) -> (val: i32)
        ensures
            val == self.code(),
    {
        match self {
            JNIVersion::Ver11 => constants::JNI_VERSION_1_1,
            JNIVersion::Ver12 => constants::JNI_VERSION_1_2,
            JNIVersion::Ver14 => constants::JNI_VERSION_1_4,
            JNIVersion::Ver16 => constants::JNI_VERSION_1_6,
            JNIVersion::Ver18 => constants::JNI_VERSION_1_8,
            JNIVersion::Ver9 => constants::JNI_VERSION_9,
            JNIVersion::Ver10 => constants::JNI_VERSION_10,
        }
    }
}

impl From<JNIVersion> for i32 {
    fn from(val: JNIVersion) -> (code: i32) {
        val.into_raw()
    }
}

impl vstd::std_specs::convert::FromSpecImpl<JNIVersion> for i32 {
    open spec fn obeys_from_spec() -> bool {
        true
    }

    open spec fn from_spec(val: JNIVersion) -> i32 {
        val.code()
    }
}

} // verus!
