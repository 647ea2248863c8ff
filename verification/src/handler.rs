//! How the answer to a command or a button reaches the member: the steps taken
//! after the command ran, whose outcomes Discord decides.

use vstd::prelude::*;

verus! {

/// A step of delivering the answer to an interaction.
#[derive(Debug, Clone, Copy, PartialEq, Eq, Structural)]
pub enum ReplyStep {
    /// Edit the deferred response with the answer.
    EditResponse,
    /// Send the answer as a follow-up message.
    CreateFollowup,
    /// Done, the answer was delivered: remember the interaction's token, so that the
    /// member's next answer in the channel replaces it.
    Remember,
    /// Done, the answer could not be delivered.
    GiveUp,
}

/// The first step of delivering an answer: edit the deferred response, or send a
/// follow-up when the response could not be deferred.
pub open spec fn initial_reply_step(deferred: bool) -> ReplyStep {
    if deferred {
        ReplyStep::EditResponse
    } else {
        ReplyStep::CreateFollowup
    }
}

/// The step after `step`, given whether Discord accepted it: a failed edit falls back
/// to a follow-up, and a failed follow-up gives up.
pub open spec fn reply_step_after(step: ReplyStep, accepted: bool) -> ReplyStep {
    match step {
        ReplyStep::EditResponse => if accepted { ReplyStep::Remember } else { ReplyStep::CreateFollowup },
        ReplyStep::CreateFollowup => if accepted { ReplyStep::Remember } else { ReplyStep::GiveUp },
        ReplyStep::Remember => ReplyStep::Remember,
        ReplyStep::GiveUp => ReplyStep::GiveUp,
    }
}

/// The first step of delivering the answer to an interaction.
pub fn first_reply_step(deferred: bool) -> (r: ReplyStep)
    ensures
        r == initial_reply_step(deferred),
{
    if deferred {
        ReplyStep::EditResponse
    } else {
        ReplyStep::CreateFollowup
    }
}

/// The step of delivering the answer that follows `step`.
pub fn next_reply_step(step: ReplyStep, accepted: bool) -> (r: ReplyStep)
    ensures
        r == reply_step_after(step, accepted),
{
    match step {
        ReplyStep::EditResponse => if accepted {
            ReplyStep::Remember
        } else {
            ReplyStep::CreateFollowup
        },
        ReplyStep::CreateFollowup => if accepted {
            ReplyStep::Remember
        } else {
            ReplyStep::GiveUp
        },
        ReplyStep::Remember => ReplyStep::Remember,
        ReplyStep::GiveUp => ReplyStep::GiveUp,
    }
}

/// Whether a step ends the delivery.
pub open spec fn reply_done(step: ReplyStep) -> bool {
    step == ReplyStep::Remember || step == ReplyStep::GiveUp
}

/// Delivering an answer takes at most two requests, and the token is remembered
/// exactly when one of them was accepted.
pub proof fn lemma_reply_delivery(deferred: bool, first: bool, second: bool)
    ensures
        ({
            let s1 = reply_step_after(initial_reply_step(deferred), first);
            let s2 = reply_step_after(s1, second);
            &&& reply_done(s2)
            &&& (s2 == ReplyStep::Remember <==> (first || (deferred && second)))
            &&& (!deferred ==> reply_done(s1))
        }),
{
}

} // verus!
