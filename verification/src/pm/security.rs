//! SELinux: store objects carry the immutable context, which only the
//! package manager's own domain may write through.
use crate::pm::constants::SELINUX_STORE_CONTEXT;
use crate::text::owned;
use vstd::prelude::*;

verus! {

/// A security context to set on a path.
pub struct FileLabel {
    pub path: String,
    pub context: String,
}

/// Why a policy step failed.
#[derive(Debug, Clone, Copy, PartialEq, Eq, Structural)]
pub enum SelinuxError {
    /// The system refused to set a file's context.
    SetContextFailed,
}

/// Applies the store's SELinux policy.
pub struct SELinuxManager;

impl SELinuxManager {
    /// The label that makes `path` immutable: the store context, or nothing
    /// to do when SELinux is disabled.
    pub fn enforce_immutability(&self, path: &str, selinux_enabled: bool) -> (r: Option<FileLabel>)
        ensures
            r is None <==> !selinux_enabled,
            r matches Some(l) ==> l.path@ == path@ && l.context@ == SELINUX_STORE_CONTEXT@,
    {
        if !selinux_enabled {
            return None;
        }
        Some(FileLabel { path: owned(path), context: owned(SELINUX_STORE_CONTEXT) })
    }

    /// Writes by the package manager to immutable paths are allowed by the
    /// loaded policy, not by anything done at run time: always `Ok`.
    pub fn allow_nexispm_write(&self, path: &str) -> (r: Result<(), SelinuxError>)
        ensures
            r is Ok,
    {
        Ok(())
    }
}

} // verus!
