//! The operations on a virtual machine, as far as they decide: what the codes
//! and pointers mean that the runtime returns when a machine is created,
//! found, or a thread is attached to it.

use vstd::prelude::*;
use vstd::string::StringExecFns;
use crate::env::{failure, JNIEnv};
use crate::error::{Error, ErrorView};
use crate::ffi::constants::JNI_ERR;
use crate::ffi::types::JavaVMAttachArgs;
use crate::text::{decimal, decimal_text, join};
use crate::types::version::JNIVersion;

verus! {

/// Higher-level construct representing a JVM
#[derive(Debug)]
pub struct JavaVM {
    version: JNIVersion,
    main_vm: usize,
    owned: bool,
}

/// The error of making a machine from a null pointer.
pub open spec fn null_vm() -> ErrorView {
    failure("JavaVM must be constructed from non-null pointer"@)
}

/// Whether `r` is the answer to an operation that yields an environment,
/// where the runtime returned the code `result` and the environment at `env`
/// with the version `version`; `msg` is what a code other than zero is
/// reported with.
pub open spec fn is_env_result(
    result: i32,
    env: usize,
    version: i32,
    msg: Seq<char>,
    r: Result<JNIEnv, Error>,
) -> bool {
    match r {
        Ok(e) => result == 0 && env != 0 && e.addr() == env && e.spec_version().code() == version,
        Err(e) => {
            ||| result != 0 && e@ == ErrorView::General(msg, result as int)
            ||| result == 0 && env == 0 && e@ == ErrorView::NullPointer("JNIEnv Constructor"@)
        },
    }
}

impl JavaVM {
    #[verifier::type_invariant]
    spec fn not_null(self) -> bool {
        self.main_vm != 0
    }

    /// The address of the runtime's machine.
    pub closed spec fn addr(&self) -> usize {
        self.main_vm
    }

    /// The version that the machine was made with.
    pub closed spec fn spec_version(&self) -> JNIVersion {
        self.version
    }

    /// Whether the machine is to be destroyed when this value is dropped.
    pub closed spec fn spec_owned(&self) -> bool {
        self.owned
    }

    /// Build a JVM instance from a version and pointer
    pub fn new(version: JNIVersion, vm: usize, owned: bool) -> (r: Result<JavaVM, Error>)
        ensures
            match r {
                Ok(m) => vm != 0 && m.addr() == vm && m.spec_version() == version
                    && m.spec_owned() == owned,
                Err(e) => vm == 0 && e@ == null_vm(),
            },
    {
        if vm == 0 {
            Err(Error::new("JavaVM must be constructed from non-null pointer", JNI_ERR))
        } else {
            Ok(JavaVM { version, main_vm: vm, owned })
        }
    }

    /// Create a new JVM: whether the runtime gave default arguments to create
    /// it with. `result` is the code that the runtime returned; the error
    /// carries it.
    pub fn create_args(result: i32) -> (r: Result<(), Error>)
        ensures
            match r {
                Ok(_) => result == 0,
                Err(e) => result != 0 && e@ == ErrorView::General(
                    "Couldn't get default JVM args"@,
                    result as int,
                ),
            },
    {
        if result != 0 {
            Err(Error::new("Couldn't get default JVM args", result))
        } else {
            Ok(())
        }
    }

    /// Create a new JVM, with the current thread as the main thread. The
    /// machine is owned: it is to be destroyed when the value is dropped.
    /// `result` is the code that the runtime returned, `main_vm` and
    /// `main_env` are the pointers that it filled in, and `env_version` is the
    /// version that it reports for the environment; the version is not looked
    /// at where no environment is made.
    pub fn create(
        version: JNIVersion,
        result: i32,
        main_vm: usize,
        main_env: usize,
        env_version: i32,
    ) -> (r: Result<(JavaVM, JNIEnv), Error>)
        requires
            result == 0 && main_vm != 0 && main_env != 0 ==> JNIVersion::is_code(env_version),
        ensures
            match r {
                Ok(pair) => result == 0 && main_vm != 0 && main_env != 0 && pair.0.addr()
                    == main_vm && pair.0.spec_version() == version && pair.0.spec_owned()
                    && pair.1.addr() == main_env && pair.1.spec_version().code() == env_version,
                Err(e) => {
                    ||| result != 0 && e@ == ErrorView::General(
                        "Couldn't create JVM"@,
                        result as int,
                    )
                    ||| result == 0 && (main_vm == 0 || main_env == 0) && e@ == failure(
                        "Main VM or Global Environment null, despite successful JVM creation"@,
                    )
                },
            },
    {
        if result != 0 {
            return Err(Error::new("Couldn't create JVM", result));
        }
        if main_vm == 0 || main_env == 0 {
            Err(
                Error::new(
                    "Main VM or Global Environment null, despite successful JVM creation",
                    JNI_ERR,
                ),
            )
        } else {
            match JNIEnv::new(main_env, env_version) {
                Ok(env) => Ok((JavaVM { version, main_vm, owned: true }, env)),
                Err(e) => Err(e),
            }
        }
    }

    /// Get a list of existing JVMs. `result` is the code that the runtime
    /// returned and `vms` are the pointers that it filled in. The error of a
    /// code other than zero carries the code; a null pointer among `vms` is an
    /// error too. None of the machines is owned.
    pub fn get_existing(version: JNIVersion, result: i32, vms: &[usize]) -> (r: Result<
        Vec<JavaVM>,
        Error,
    >)
        ensures
            match r {
                Ok(out) => result == 0 && out@.len() == vms@.len() && forall|i: int|
                    0 <= i < vms@.len() ==> vms@[i] != 0 && (#[trigger] out@[i]).addr() == vms@[i]
                        && out@[i].spec_version() == version && !out@[i].spec_owned(),
                Err(e) => {
                    ||| result != 0 && e@ == ErrorView::General(
                        "Couldn't get list of existing JVM instances"@,
                        result as int,
                    )
                    ||| result == 0 && vms@.contains(0) && e@ == null_vm()
                },
            },
    {
        if result != 0 {
            return Err(Error::new("Couldn't get list of existing JVM instances", result));
        }
        let mut out: Vec<JavaVM> = Vec::new();
        let mut idx: usize = 0;
        while idx < vms.len()
            invariant
                result == 0,
                idx <= vms@.len(),
                out@.len() == idx,
                forall|i: int|
                    0 <= i < idx ==> vms@[i] != 0 && (#[trigger] out@[i]).addr() == vms@[i]
                        && out@[i].spec_version() == version && !out@[i].spec_owned(),
            decreases vms@.len() - idx,
        {
            match JavaVM::new(version, vms[idx], false) {
                Ok(vm) => out.push(vm),
                Err(e) => {
                    assert(vms@[idx as int] == 0);
                    return Err(e);
                },
            }
            idx += 1;
        }
        Ok(out)
    }

    /// The address of the machine
    pub fn borrow_ptr(&self) -> (ptr: usize)
        ensures
            ptr == self.addr(),
            ptr != 0,
    {
        proof {
            use_type_invariant(self);
        }
        self.main_vm
    }

    /// The version that this machine was made with
    #[verifier::when_used_as_spec(spec_version)]
    pub fn version(&self) -> (v: JNIVersion)
        ensures
            v == self.spec_version(),
    {
        self.version
    }

    /// Whether the machine is to be destroyed when this value is dropped
    #[verifier::when_used_as_spec(spec_owned)]
    pub fn owned(&self) -> (owned: bool)
        ensures
            owned == self.spec_owned(),
    {
        self.owned
    }

    /// The arguments to attach a thread to this machine with
    pub fn attach_args(&self) -> (args: JavaVMAttachArgs)
        ensures
            args == (JavaVMAttachArgs { version: self.version().code(), name: 0, group: 0 }),
    {
        JavaVMAttachArgs::new(self.version.into_raw())
    }

    /// What an operation that yields an environment came to.
    fn env_result(result: i32, env: usize, version: i32, msg: &str) -> (r: Result<JNIEnv, Error>)
        requires
            result == 0 && env != 0 ==> JNIVersion::is_code(version),
        ensures
            is_env_result(result, env, version, msg@, r),
    {
        if result != 0 {
            Err(Error::new(msg, result))
        } else {
            JNIEnv::new(env, version)
        }
    }

    /// Get an owned object for the local thread's environment. `result` is the
    /// code that the runtime returned, `env` the pointer that it filled in and
    /// `version` the version that it reports for the environment; the version
    /// is not looked at where no environment is made.
    pub fn get_local_env(&self, result: i32, env: usize, version: i32) -> (r: Result<JNIEnv, Error>)
        requires
            result == 0 && env != 0 ==> JNIVersion::is_code(version),
        ensures
            is_env_result(result, env, version, "Couldn't get local environment"@, r),
    {
        JavaVM::env_result(result, env, version, "Couldn't get local environment")
    }

    /// Attach the current thread, and get an owned instance of the environment
    /// for it. The arguments are as for [`get_local_env`](Self::get_local_env).
    pub fn attach_current_thread(&self, result: i32, env: usize, version: i32) -> (r: Result<
        JNIEnv,
        Error,
    >)
        requires
            result == 0 && env != 0 ==> JNIVersion::is_code(version),
        ensures
            is_env_result(result, env, version, "Couldn't attach current thread to the JVM"@, r),
    {
        JavaVM::env_result(result, env, version, "Couldn't attach current thread to the JVM")
    }

    /// Attach the current thread as a daemon, and get an owned instance of the
    /// environment for it. The arguments are as for
    /// [`get_local_env`](Self::get_local_env).
    pub fn attach_current_thread_daemon(&self, result: i32, env: usize, version: i32) -> (r: Result<
        JNIEnv,
        Error,
    >)
        requires
            result == 0 && env != 0 ==> JNIVersion::is_code(version),
        ensures
            is_env_result(
                result,
                env,
                version,
                "Couldn't attach current thread as daemon to the JVM"@,
                r,
            ),
    {
        JavaVM::env_result(
            result,
            env,
            version,
            "Couldn't attach current thread as daemon to the JVM",
        )
    }

    /// Detach the current thread, and give up the associated owned
    /// environment. `result` is the code that the runtime returned; the error
    /// carries it.
    pub fn detach_current_thread(&self, _env: JNIEnv, result: i32) -> (r: Result<(), Error>)
        ensures
            match r {
                Ok(_) => result == 0,
                Err(e) => result != 0 && e@ == ErrorView::General(
                    "Couldn't detach current thread from JVM"@,
                    result as int,
                ),
            },
    {
        if result != 0 {
            Err(Error::new("Couldn't detach current thread from JVM", result))
        } else {
            Ok(())
        }
    }
}

/// Whether the startup option at `idx` can be removed from `num_options`
/// options. Refused if there is no option at `idx`.
pub fn option_index(idx: i32, num_options: i32) -> (r: Result<(), Error>)
    ensures
        match r {
            Ok(_) => 0 <= idx < num_options,
            Err(e) => !(0 <= idx < num_options) && e@ == failure(
                "Index "@ + decimal(idx as int) + " out of range for option removal"@,
            ),
        },
{
    if idx >= num_options || idx < 0 {
        let number = decimal_text(idx);
        let msg = join("Index ", number.as_str()).concat(" out of range for option removal");
        Err(Error::new(msg.as_str(), JNI_ERR))
    } else {
        Ok(())
    }
}

} // verus!
