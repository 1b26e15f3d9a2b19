//! The flow for a block that the node's own leader task minted.

use crate::chain::{Block, PostCheckedHeader, Ref};
use crate::collaborator::{
    lemma_run_keeps, lemma_run_unfolds, lemma_settled_flow_stays, requests_of, state_after, Reply,
    Request,
};
use crate::error::{error_of, Error, Failure};
use vstd::prelude::*;

verus! {

/// Where the flow for a minted block stands.
#[derive(Debug, PartialEq, Eq)]
pub enum LeadershipState {
    /// The leader task minted `block` on top of `parent`; nothing was asked
    /// yet.
    Minted { block: Block, parent: Ref },
    /// The validation of the block's header was asked for.
    Validating { block: Block },
    /// The header is valid; the block was handed over to be applied.
    Applying,
    /// The flow is over, with the handle of the admitted block or the error.
    Done(Result<Ref, Error>),
}

/// One step of the flow: the state it moves to and what it asks next.
///
/// The leader task builds only on a chain that the node tracks, so the
/// block's header is not classified: it is validated at once against the
/// parent that came with the block, and the block is applied with the
/// validator's token. A collaborator's failure ends the flow with that
/// failure. A reply that does not answer what the state is waiting for
/// changes nothing.
pub open spec fn leadership_step(state: LeadershipState, reply: Option<Reply>) -> (
    LeadershipState,
    Option<Request>,
) {
    match (state, reply) {
        (LeadershipState::Minted { block, parent }, None) => (
            LeadershipState::Validating { block },
            Some(Request::PostCheckHeader { header: block.header, parent }),
        ),
        (LeadershipState::Validating { block }, Some(Reply::PostChecked(Ok(post_checked)))) => (
            LeadershipState::Applying,
            Some(Request::ApplyBlock { post_checked, block }),
        ),
        (LeadershipState::Validating { .. }, Some(Reply::PostChecked(Err(failure)))) => (
            LeadershipState::Done(Err(error_of(failure))),
            None,
        ),
        (LeadershipState::Applying, Some(Reply::Applied(Ok(admitted)))) => (
            LeadershipState::Done(Ok(admitted)),
            None,
        ),
        (LeadershipState::Applying, Some(Reply::Applied(Err(failure)))) => (
            LeadershipState::Done(Err(error_of(failure))),
            None,
        ),
        _ => (state, None),
    }
}

/// Takes the flow for a minted block one step further.
///
/// `reply` answers the request of the step before; the first step takes
/// `None`. The result is the next state and the next request.
pub fn process_leadership_block(state: LeadershipState, reply: Option<Reply>) -> (next: (
    LeadershipState,
    Option<Request>,
))
    ensures
        next == leadership_step(state, reply),
{
    match (state, reply) {
        (LeadershipState::Minted { block, parent }, None) => {
            let header = block.header();
            (LeadershipState::Validating { block }, Some(Request::PostCheckHeader { header, parent }))
        },
        (LeadershipState::Validating { block }, Some(Reply::PostChecked(Ok(post_checked)))) => (
            LeadershipState::Applying,
            Some(Request::ApplyBlock { post_checked, block }),
        ),
        (LeadershipState::Validating { .. }, Some(Reply::PostChecked(Err(failure)))) => (
            LeadershipState::Done(Err(Error::from_failure(failure))),
            None,
        ),
        (LeadershipState::Applying, Some(Reply::Applied(Ok(admitted)))) => (
            LeadershipState::Done(Ok(admitted)),
            None,
        ),
        (LeadershipState::Applying, Some(Reply::Applied(Err(failure)))) => (
            LeadershipState::Done(Err(Error::from_failure(failure))),
            None,
        ),
        (state, _) => (state, None),
    }
}

/// The flow as a function, for the runs of `requests_of` and `state_after`.
pub open spec fn leadership_flow() -> spec_fn(LeadershipState, Option<Reply>) -> (
    LeadershipState,
    Option<Request>,
) {
    |state: LeadershipState, reply: Option<Reply>| leadership_step(state, reply)
}

/// How the flow ends, given the validator's and the applier's answers: with
/// the validator's failure; else with the applier's failure; else with the
/// handle of the admitted block.
pub open spec fn leadership_outcome(
    post_checked: Result<PostCheckedHeader, Failure>,
    applied: Result<Ref, Failure>,
) -> Result<Ref, Error> {
    match (post_checked, applied) {
        (Err(failure), _) => Err(error_of(failure)),
        (Ok(_), Err(failure)) => Err(error_of(failure)),
        (Ok(_), Ok(admitted)) => Ok(admitted),
    }
}

/// Once the flow is over, no reply moves it and it asks nothing more.
pub proof fn lemma_leadership_done_is_final(
    result: Result<Ref, Error>,
    replies: Seq<Option<Reply>>,
)
    ensures
        state_after(leadership_flow(), LeadershipState::Done(result), replies)
            == LeadershipState::Done(result),
        requests_of(leadership_flow(), LeadershipState::Done(result), replies)
            == Seq::<Request>::empty(),
{
    lemma_settled_flow_stays(leadership_flow(), LeadershipState::Done(result), replies);
}

/// A minted block whose requests are answered goes from validation to
/// application and no further. The flow asks for the validation of the
/// block's header against the parent that came with it; if the validator
/// passes the header, it asks for the block to be applied with the
/// validator's token; and it ends as `leadership_outcome` says. Replies that
/// come after the end change nothing.
pub proof fn lemma_leadership_run(
    block: Block,
    parent: Ref,
    post_checked: Result<PostCheckedHeader, Failure>,
    applied: Result<Ref, Failure>,
    rest: Seq<Option<Reply>>,
)
    ensures
        ({
            let start = LeadershipState::Minted { block, parent };
            let replies = seq![
                None,
                Some(Reply::PostChecked(post_checked)),
                Some(Reply::Applied(applied)),
            ] + rest;
            let validation = Request::PostCheckHeader { header: block.header, parent };
            &&& state_after(leadership_flow(), start, replies) == LeadershipState::Done(
                leadership_outcome(post_checked, applied),
            )
            &&& requests_of(leadership_flow(), start, replies) == match post_checked {
                Ok(token) => seq![validation, Request::ApplyBlock { post_checked: token, block }],
                Err(_) => seq![validation],
            }
        }),
{
    let flow = leadership_flow();
    let start = LeadershipState::Minted { block, parent };
    let first = None::<Reply>;
    let second = Some(Reply::PostChecked(post_checked));
    let third = Some(Reply::Applied(applied));
    let replies = seq![first, second, third] + rest;
    assert(replies =~= seq![first] + (seq![second] + (seq![third] + rest)));
    let validating = flow(start, first).0;
    let applying = flow(validating, second).0;
    let done = flow(applying, third).0;
    lemma_run_unfolds(flow, start, first, seq![second] + (seq![third] + rest));
    lemma_run_unfolds(flow, validating, second, seq![third] + rest);
    lemma_run_unfolds(flow, applying, third, rest);
    let result = leadership_outcome(post_checked, applied);
    assert(done == LeadershipState::Done(result));
    lemma_leadership_done_is_final(result, rest);
    let validation = Request::PostCheckHeader { header: block.header, parent };
    match post_checked {
        Ok(token) => {
            let application = Request::ApplyBlock { post_checked: token, block };
            assert(seq![validation] + (seq![application] + (Seq::<Request>::empty() + Seq::<
                Request,
            >::empty())) =~= seq![validation, application]);
        },
        Err(_) => {
            assert(seq![validation] + (Seq::<Request>::empty() + (Seq::<Request>::empty() + Seq::<
                Request,
            >::empty())) =~= seq![validation]);
        },
    }
}

/// The flow takes the leader task at its word: whatever the replies, it never
/// asks for a header to be classified, and it never ends with the error for a
/// missing parent.
pub proof fn lemma_leadership_never_classifies(
    block: Block,
    parent: Ref,
    replies: Seq<Option<Reply>>,
)
    ensures
        ({
            let start = LeadershipState::Minted { block, parent };
            let requests = requests_of(leadership_flow(), start, replies);
            &&& forall|i: int|
                0 <= i < requests.len() ==> !(#[trigger] requests[i] is PreCheckHeader)
            &&& match state_after(leadership_flow(), start, replies) {
                LeadershipState::Done(Err(error)) => !error.is_missing_parent(),
                _ => true,
            }
        }),
{
    let holds = |state: LeadershipState|
        match state {
            LeadershipState::Done(Err(error)) => !error.is_missing_parent(),
            _ => true,
        };
    let allowed = |request: Request| !(request is PreCheckHeader);
    let start = LeadershipState::Minted { block, parent };
    lemma_run_keeps(leadership_flow(), holds, allowed, start, replies);
}

/// What the flow may still ask from `state` on: first a validation, if none
/// was asked yet, then at most one application, and that of `state`'s own
/// block.
pub open spec fn leadership_asks_in_order(state: LeadershipState, requests: Seq<Request>) -> bool {
    match state {
        LeadershipState::Minted { block, parent } => {
            &&& requests.len() <= 2
            &&& requests.len() >= 1 ==> requests[0] == (Request::PostCheckHeader {
                header: block.header,
                parent,
            })
            &&& requests.len() >= 2 ==> requests[1] is ApplyBlock && requests[1]->block == block
        },
        LeadershipState::Validating { block } => {
            &&& requests.len() <= 1
            &&& requests.len() >= 1 ==> requests[0] is ApplyBlock && requests[0]->block == block
        },
        LeadershipState::Applying => requests.len() == 0,
        LeadershipState::Done(_) => requests.len() == 0,
    }
}

/// Whatever the replies, also ones that answer nothing that was asked, the
/// flow validates before it applies and does each at most once: its requests
/// are the validation of the block's header, then the application of that
/// block, or a beginning of these two.
pub proof fn lemma_leadership_asks_in_order(state: LeadershipState, replies: Seq<Option<Reply>>)
    ensures
        leadership_asks_in_order(state, requests_of(leadership_flow(), state, replies)),
    decreases replies.len(),
{
    if replies.len() > 0 {
        let taken = leadership_step(state, replies.first());
        lemma_leadership_asks_in_order(taken.0, replies.drop_first());
    }
}

/// A reply that does not answer the request just made changes nothing: the
/// flow stays where it is and asks nothing. So does the sign to begin once
/// the flow has begun.
pub proof fn lemma_leadership_ignores_strays(
    before: LeadershipState,
    earlier: Option<Reply>,
    stray: Option<Reply>,
)
    requires
        leadership_step(before, earlier).1 is Some,
        stray is Some ==> !leadership_step(before, earlier).1->0.is_answered_by(stray->0),
    ensures
        leadership_step(leadership_step(before, earlier).0, stray) == (
            leadership_step(before, earlier).0,
            None::<Request>,
        ),
{
}

} // verus!
