//! Whole attempts: what holds of every sequence of events.
//!
//! `run` and `trace` extend the transition function to sequences. The
//! lemmas below hold whatever the driver reports, in whatever order.

use crate::attempt::{
    judge, next, prompt_text, start, ActionView, AttemptView, EventView, StageView,
};
use crate::config::{lookup, required_credentials};
use crate::decimal::{decimal_digits, lemma_decimal_digits_injective, lemma_decimal_digits_shape};
use crate::verdict::Verdict;
use vstd::prelude::*;

verus! {

/// The state after all of `events`, taken in order.
pub open spec fn run(attempt: AttemptView, events: Seq<EventView>) -> AttemptView
    decreases events.len(),
{
    if events.len() == 0 {
        attempt
    } else {
        run(next(attempt, events.first()).0, events.drop_first())
    }
}

/// The actions that the attempt answers `events` with, one for each.
pub open spec fn trace(attempt: AttemptView, events: Seq<EventView>) -> Seq<ActionView>
    decreases events.len(),
{
    if events.len() == 0 {
        Seq::empty()
    } else {
        seq![next(attempt, events.first()).1] + trace(
            next(attempt, events.first()).0,
            events.drop_first(),
        )
    }
}

/// Every action is the conclusion with `verdict`.
pub open spec fn all_conclude(actions: Seq<ActionView>, verdict: Verdict) -> bool {
    forall|i: int| 0 <= i < actions.len() ==> actions[i] == ActionView::Conclude(verdict)
}

/// The attempt answers each event with one action.
pub proof fn lemma_trace_len(attempt: AttemptView, events: Seq<EventView>)
    ensures
        trace(attempt, events).len() == events.len(),
    decreases events.len(),
{
    if events.len() > 0 {
        lemma_trace_len(next(attempt, events.first()).0, events.drop_first());
    }
}

/// An attempt has one secret: no event changes it.
pub proof fn lemma_secret_is_fixed(attempt: AttemptView, events: Seq<EventView>)
    ensures
        run(attempt, events).secret == attempt.secret,
    decreases events.len(),
{
    if events.len() > 0 {
        lemma_secret_is_fixed(next(attempt, events.first()).0, events.drop_first());
    }
}

/// Attempts whose numbers differ have different secrets.
pub proof fn lemma_secrets_differ(
    args_a: Seq<Seq<char>>,
    host_a: Seq<char>,
    number_a: nat,
    args_b: Seq<Seq<char>>,
    host_b: Seq<char>,
    number_b: nat,
)
    requires
        number_a != number_b,
    ensures
        start(args_a, host_a, number_a).0.secret != start(args_b, host_b, number_b).0.secret,
{
    if decimal_digits(number_a) == decimal_digits(number_b) {
        lemma_decimal_digits_injective(number_a, number_b);
    }
}

/// A finished attempt stays finished: it answers every event with its
/// verdict and nothing else.
pub proof fn lemma_finished_is_final(
    attempt: AttemptView,
    events: Seq<EventView>,
    verdict: Verdict,
)
    requires
        attempt.stage == StageView::Finished(verdict),
    ensures
        run(attempt, events) == attempt,
        all_conclude(trace(attempt, events), verdict),
    decreases events.len(),
{
    if events.len() > 0 {
        lemma_finished_is_final(attempt, events.drop_first(), verdict);
    }
}

/// A conclusion is final: once the attempt has answered with a verdict, it
/// answers everything after with that verdict.
pub proof fn lemma_conclusion_is_final(
    attempt: AttemptView,
    event: EventView,
    rest: Seq<EventView>,
    verdict: Verdict,
)
    requires
        next(attempt, event).1 == ActionView::Conclude(verdict),
    ensures
        run(attempt, seq![event] + rest).stage == StageView::Finished(verdict),
        all_conclude(trace(attempt, seq![event] + rest), verdict),
{
    let events = seq![event] + rest;
    assert(events.drop_first() =~= rest);
    lemma_finished_is_final(next(attempt, event).0, rest, verdict);
}

/// Without `token` or without `user_token` the attempt is denied at once,
/// and whatever is reported afterwards it asks for nothing: no delivery, no
/// prompt.
pub proof fn lemma_missing_credentials_deny(
    args: Seq<Seq<char>>,
    host_label: Seq<char>,
    number: nat,
    events: Seq<EventView>,
)
    requires
        lookup(args, "token"@) is None || lookup(args, "user_token"@) is None,
    ensures
        start(args, host_label, number).1 == ActionView::Conclude(Verdict::AuthError),
        all_conclude(trace(start(args, host_label, number).0, events), Verdict::AuthError),
{
    lemma_finished_is_final(start(args, host_label, number).0, events, Verdict::AuthError);
}

/// The answer to the prompt is accepted for the secret itself and for no
/// other text; no answer is a denial.
pub proof fn lemma_exact_response_decides(attempt: AttemptView, response: Option<Seq<char>>)
    requires
        attempt.stage == StageView::AwaitingResponse,
    ensures
        next(attempt, EventView::Responded(response)).1 == ActionView::Conclude(
            Verdict::Success,
        ) <==> response == Some(attempt.secret),
        response != Some(attempt.secret) ==> next(attempt, EventView::Responded(response)).1
            == ActionView::Conclude(Verdict::AuthError),
{
}

/// An empty answer is never the secret of an attempt: at the prompt of an
/// attempt that was started, whatever was reported on the way there, it is
/// denied.
pub proof fn lemma_empty_response_denied(
    args: Seq<Seq<char>>,
    host_label: Seq<char>,
    number: nat,
    events: Seq<EventView>,
)
    requires
        run(start(args, host_label, number).0, events).stage == StageView::AwaitingResponse,
    ensures
        next(
            run(start(args, host_label, number).0, events),
            EventView::Responded(Some(Seq::empty())),
        ).1 == ActionView::Conclude(Verdict::AuthError),
{
    lemma_secret_is_fixed(start(args, host_label, number).0, events);
    lemma_decimal_digits_shape(number);
}

/// Text around the secret makes another text: an answer with anything
/// before or after the secret is denied.
pub proof fn lemma_padded_response_denied(
    attempt: AttemptView,
    before: Seq<char>,
    after: Seq<char>,
)
    requires
        attempt.stage == StageView::AwaitingResponse,
        before.len() + after.len() > 0,
    ensures
        next(attempt, EventView::Responded(Some(before + attempt.secret + after))).1
            == ActionView::Conclude(Verdict::AuthError),
{
}

/// Success is only ever concluded on the secret: where an attempt that is
/// not yet finished answers with success, now or later, the event it
/// answers then is the user's response, and that response is the secret.
pub proof fn lemma_success_needs_secret(attempt: AttemptView, events: Seq<EventView>, at: int)
    requires
        !(attempt.stage is Finished),
        0 <= at < events.len(),
        trace(attempt, events)[at] == ActionView::Conclude(Verdict::Success),
    ensures
        exists|by: int|
            0 <= by <= at && #[trigger] events[by] == EventView::Responded(Some(attempt.secret)),
    decreases events.len(),
{
    let after = next(attempt, events.first());
    let rest = events.drop_first();
    lemma_trace_len(after.0, rest);
    if after.0.stage == StageView::Finished(Verdict::Success) {
        assert(events[0] == EventView::Responded(Some(attempt.secret)));
    } else if at > 0 {
        if after.0.stage is Finished {
            lemma_finished_is_final(after.0, rest, after.0.stage->Finished_0);
        } else {
            lemma_success_needs_secret(after.0, rest, at - 1);
            let by = choose|by: int|
                0 <= by <= at - 1 && #[trigger] rest[by] == EventView::Responded(
                    Some(after.0.secret),
                );
            assert(events[by + 1] == rest[by]);
        }
    }
}

/// Failed delivery is denial, and the prompt is never reached: every action
/// from then on is the denial.
pub proof fn lemma_failed_delivery_denies(attempt: AttemptView, rest: Seq<EventView>)
    requires
        attempt.stage == StageView::AwaitingDelivery,
    ensures
        all_conclude(trace(attempt, seq![EventView::DeliveryFailed] + rest), Verdict::AuthError),
{
    lemma_conclusion_is_final(attempt, EventView::DeliveryFailed, rest, Verdict::AuthError);
}

/// Without a conversation channel the attempt ends with the host's code,
/// before anything is delivered and without a prompt: every action from
/// then on is the conclusion with that code.
pub proof fn lemma_unavailable_channel_passes_code(
    attempt: AttemptView,
    code: i32,
    rest: Seq<EventView>,
)
    requires
        attempt.stage is AwaitingChannel,
    ensures
        all_conclude(
            trace(attempt, seq![EventView::ChannelUnavailable(code)] + rest),
            Verdict::Host(code),
        ),
{
    lemma_conclusion_is_final(
        attempt,
        EventView::ChannelUnavailable(code),
        rest,
        Verdict::Host(code),
    );
}

/// Where the host cannot name the user the attempt ends with the host's
/// code, and every action from then on is the conclusion with that code.
pub proof fn lemma_unresolved_user_passes_code(
    attempt: AttemptView,
    code: i32,
    rest: Seq<EventView>,
)
    requires
        attempt.stage is AwaitingUser,
    ensures
        all_conclude(
            trace(attempt, seq![EventView::UserUnresolved(code)] + rest),
            Verdict::Host(code),
        ),
{
    lemma_conclusion_is_final(attempt, EventView::UserUnresolved(code), rest, Verdict::Host(code));
}

/// How far an attempt has come: stages are passed in this order, and none
/// is entered twice.
pub open spec fn progress(stage: StageView) -> nat {
    match stage {
        StageView::AwaitingUser { .. } => 0,
        StageView::AwaitingChannel { .. } => 1,
        StageView::AwaitingDelivery => 2,
        StageView::AwaitingResponse => 3,
        StageView::Finished(_) => 4,
    }
}

/// An attempt never goes back.
pub proof fn lemma_progress_is_monotone(attempt: AttemptView, events: Seq<EventView>)
    ensures
        progress(attempt.stage) <= progress(run(attempt, events).stage),
    decreases events.len(),
{
    if events.len() > 0 {
        lemma_progress_is_monotone(next(attempt, events.first()).0, events.drop_first());
    }
}

/// Once the delivery has been asked for it is not asked for again, and
/// once the prompt has been shown it is not shown again.
pub proof fn lemma_no_repeat_after(attempt: AttemptView, events: Seq<EventView>, at: int)
    requires
        0 <= at < events.len(),
    ensures
        progress(attempt.stage) >= 2 ==> !(trace(attempt, events)[at] is Deliver),
        progress(attempt.stage) >= 3 ==> !(trace(attempt, events)[at] is Prompt),
    decreases events.len(),
{
    let after = next(attempt, events.first());
    lemma_trace_len(after.0, events.drop_first());
    if at > 0 {
        lemma_no_repeat_after(after.0, events.drop_first(), at - 1);
    }
}

/// One attempt sends at most one notification and shows at most one
/// prompt, so its secret is compared at most once.
pub proof fn lemma_one_delivery_one_prompt(
    attempt: AttemptView,
    events: Seq<EventView>,
    first: int,
    second: int,
)
    requires
        0 <= first < second < events.len(),
    ensures
        !(trace(attempt, events)[first] is Deliver && trace(attempt, events)[second] is Deliver),
        !(trace(attempt, events)[first] is Prompt && trace(attempt, events)[second] is Prompt),
    decreases events.len(),
{
    let after = next(attempt, events.first());
    let rest = events.drop_first();
    lemma_trace_len(after.0, rest);
    if first == 0 {
        lemma_no_repeat_after(after.0, rest, second - 1);
    } else {
        lemma_one_delivery_one_prompt(after.0, rest, first - 1, second - 1);
    }
}

/// The prompt is shown only for a notification that was delivered: where
/// an attempt that has not yet asked for the delivery shows the prompt, the
/// action just before was the delivery, and the event it answers is the
/// report that the delivery succeeded.
pub proof fn lemma_prompt_follows_delivery(attempt: AttemptView, events: Seq<EventView>, at: int)
    requires
        progress(attempt.stage) <= 1,
        0 <= at < events.len(),
        trace(attempt, events)[at] is Prompt,
    ensures
        at >= 1,
        trace(attempt, events)[at - 1] is Deliver,
        events[at] == EventView::Delivered,
        trace(attempt, events)[at] == ActionView::Prompt(prompt_text()),
    decreases events.len(),
{
    let after = next(attempt, events.first());
    let rest = events.drop_first();
    lemma_trace_len(after.0, rest);
    if at > 0 {
        if progress(after.0.stage) <= 1 {
            lemma_prompt_follows_delivery(after.0, rest, at - 1);
        } else if progress(after.0.stage) == 2 && at >= 2 {
            let later = next(after.0, rest.first());
            lemma_trace_len(later.0, rest.drop_first());
            lemma_no_repeat_after(later.0, rest.drop_first(), at - 2);
        } else if progress(after.0.stage) >= 3 {
            lemma_no_repeat_after(after.0, rest, at - 1);
        }
    }
}

/// The verdict of an attempt whose driver reports what happened: the first
/// failure decides, in the order credentials, user, channel, delivery,
/// prompt; with none, the user's answer decides.
pub open spec fn outcome(
    args: Seq<Seq<char>>,
    number: nat,
    user: Result<Seq<char>, i32>,
    channel: Result<(), i32>,
    delivered: bool,
    response: Result<Option<Seq<char>>, i32>,
) -> Verdict {
    if required_credentials(args) is None {
        Verdict::AuthError
    } else if let Err(code) = user {
        Verdict::Host(code)
    } else if let Err(code) = channel {
        Verdict::Host(code)
    } else if !delivered {
        Verdict::AuthError
    } else {
        match response {
            Ok(answer) => judge(decimal_digits(number), answer),
            Err(code) => Verdict::Host(code),
        }
    }
}

/// The events by which a driver reports these four results.
pub open spec fn reports(
    user: Result<Seq<char>, i32>,
    channel: Result<(), i32>,
    delivered: bool,
    response: Result<Option<Seq<char>>, i32>,
) -> Seq<EventView> {
    seq![
        match user {
            Ok(name) => EventView::UserResolved(name),
            Err(code) => EventView::UserUnresolved(code),
        },
        match channel {
            Ok(_) => EventView::ChannelAcquired,
            Err(code) => EventView::ChannelUnavailable(code),
        },
        if delivered {
            EventView::Delivered
        } else {
            EventView::DeliveryFailed
        },
        match response {
            Ok(answer) => EventView::Responded(answer),
            Err(code) => EventView::PromptFailed(code),
        },
    ]
}

/// An attempt that is told what happened ends with the verdict that
/// `outcome` names.
pub proof fn lemma_attempt_outcome(
    args: Seq<Seq<char>>,
    host_label: Seq<char>,
    number: nat,
    user: Result<Seq<char>, i32>,
    channel: Result<(), i32>,
    delivered: bool,
    response: Result<Option<Seq<char>>, i32>,
)
    ensures
        run(
            start(args, host_label, number).0,
            reports(user, channel, delivered, response),
        ).stage == StageView::Finished(outcome(args, number, user, channel, delivered, response)),
{
    let events = reports(user, channel, delivered, response);
    let s0 = start(args, host_label, number).0;
    let s1 = next(s0, events[0]).0;
    let s2 = next(s1, events[1]).0;
    let s3 = next(s2, events[2]).0;
    let s4 = next(s3, events[3]).0;
    let e1 = events.drop_first();
    let e2 = e1.drop_first();
    let e3 = e2.drop_first();
    let e4 = e3.drop_first();
    assert(run(s4, e4) == s4);
    assert(run(s3, e3) == s4);
    assert(run(s2, e2) == s4);
    assert(run(s1, e1) == s4);
}

} // verus!
