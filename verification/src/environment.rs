//! What the attempt takes from the machine it runs on.

use rand::Rng;
use vstd::prelude::*;

verus! {

/// Draws a `u64` from the thread-local generator of the `rand` crate, by
/// `rand::thread_rng()` and `Rng::gen`.
///
/// Nothing is claimed of the number: every value of the type may come back,
/// and two calls may or may not agree. The generator stops the process if
/// the operating system cannot seed it.
#[verifier::external_body]
pub(crate) fn random_number() -> (number: u64) {
    rand::thread_rng().gen::<u64>()
}

/// Asks `gethostname::gethostname()` for the machine's host name and turns
/// it into text, with a replacement character where it is not valid UTF-8.
///
/// Nothing is claimed of the name: it is whatever the machine reports.
#[verifier::external_body]
pub(crate) fn local_host_label() -> (label: String) {
    gethostname::gethostname().to_string_lossy().into_owned()
}

} // verus!
