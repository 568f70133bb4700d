//! The failures that the library reports.

use vstd::prelude::*;

verus! {

/// Why an operation on a parameter table or a kernel session failed.
#[derive(Debug, PartialEq, Eq)]
pub enum KernelError {
    /// A buffer's length is not its width times its height.
    ShapeMismatch,
    /// The backend rejected the generated source; holds its diagnostic.
    CompileFailed(String),
    /// A dispatch was asked for while no compiled kernel is present.
    KernelNotConfigured,
    /// The backend failed while running the kernel; holds its diagnostic.
    BackendInvocationFailed(String),
}

} // verus!
