//! The three entry points that the host framework calls.

use crate::attempt::{start, Action, ActionView, Attempt, StageView};
use crate::config::{arg_views, required_credentials};
use crate::environment::{local_host_label, random_number};
use crate::verdict::Verdict;
use vstd::prelude::*;

verus! {

/// The module's hooks.
pub struct PamPushover;

impl PamPushover {
    /// Account management: this module has no say in it and always reports
    /// success, whatever the arguments and flags.
    pub fn acct_mgmt(args: &Vec<String>, flags: u32) -> (verdict: Verdict)
        ensures
            verdict == Verdict::Success,
    {
        Verdict::Success
    }

    /// Credential establishment: this module keeps no credentials and
    /// always reports success, whatever the arguments and flags.
    pub fn sm_setcred(args: &Vec<String>, flags: u32) -> (verdict: Verdict)
        ensures
            verdict == Verdict::Success,
    {
        Verdict::Success
    }

    /// Authentication: draws the number for the secret, asks this machine
    /// for its name and starts an attempt with both. The flags are not read.
    ///
    /// Whatever number and name came back, the attempt starts as `start`
    /// says for them: denied at once where a credential is missing, and
    /// asking for the user otherwise.
    pub fn sm_authenticate(args: &Vec<String>, flags: u32) -> (started: (Attempt, Action))
        ensures
            required_credentials(arg_views(args@)) is None ==> {
                &&& started.0@.stage == StageView::Finished(Verdict::AuthError)
                &&& started.1@ == ActionView::Conclude(Verdict::AuthError)
            },
            required_credentials(arg_views(args@)) is Some ==> {
                &&& started.0@.stage is AwaitingUser
                &&& started.1@ == ActionView::ResolveUser
            },
            exists|host_label: Seq<char>, number: nat|
                number <= u64::MAX && (started.0@, started.1@) == #[trigger] start(
                    arg_views(args@),
                    host_label,
                    number,
                ),
    {
        let number = random_number();
        let host_label = local_host_label();
        Attempt::new(args, host_label, number)
    }
}

} // verus!
