use vstd::prelude::*;

verus! {

/// The result of one hook invocation, in the host's vocabulary.
#[derive(Clone, Copy, Debug, PartialEq, Eq, Structural)]
pub enum Verdict {
    /// The login may proceed.
    Success,
    /// The login is denied.
    AuthError,
    /// An error code of the host framework, handed through unchanged.
    Host(i32),
}

} // verus!
