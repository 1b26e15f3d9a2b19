//! The flow for a block that a peer pushes.

use crate::chain::{Block, PostCheckedHeader, Ref};
use crate::classifier::{
    classify, lemma_classification_reads_two_entries, lookup, ChainIndex, PreCheckedHeader,
};
use crate::collaborator::{
    lemma_run_unfolds, lemma_settled_flow_stays, requests_of, state_after, Reply, Request,
};
use crate::error::{error_of, Error, Failure};
use crate::network::MessageBox;
use vstd::prelude::*;

verus! {

/// Where the flow for a pushed block stands.
#[derive(Debug, PartialEq, Eq)]
pub enum NetworkBlockState {
    /// The block arrived; nothing was asked yet.
    Received { block: Block },
    /// The class of the block's header was asked for.
    Classifying { block: Block },
    /// The header is new and its parent known; its validation was asked for.
    Validating { block: Block },
    /// The header is valid; the block was handed over to be applied.
    Applying,
    /// The flow is over.
    Done(Result<(), Error>),
}

/// One step of the flow: the state it moves to and what it asks next.
///
/// The block's header is classified first. A block already in the index ends
/// the flow in success, an orphan ends it with the error that names its
/// header. Otherwise the header is validated against the parent that the
/// classifier found, and the block is applied with the validator's token. A
/// collaborator's failure ends the flow with that failure. A reply that does
/// not answer what the state is waiting for changes nothing.
pub open spec fn network_block_step(state: NetworkBlockState, reply: Option<Reply>) -> (
    NetworkBlockState,
    Option<Request>,
) {
    match (state, reply) {
        (NetworkBlockState::Received { block }, None) => (
            NetworkBlockState::Classifying { block },
            Some(Request::PreCheckHeader(block.header)),
        ),
        (NetworkBlockState::Classifying { block }, Some(Reply::PreChecked(Ok(pre_checked)))) => {
            match pre_checked {
                PreCheckedHeader::AlreadyPresent { .. } => (NetworkBlockState::Done(Ok(())), None),
                PreCheckedHeader::MissingParent { header } => (
                    NetworkBlockState::Done(Err(Error::MissingParentBlockFromStorage(header))),
                    None,
                ),
                PreCheckedHeader::HeaderWithCache { header, parent_ref } => (
                    NetworkBlockState::Validating { block },
                    Some(Request::PostCheckHeader { header, parent: parent_ref }),
                ),
            }
        },
        (NetworkBlockState::Classifying { .. }, Some(Reply::PreChecked(Err(failure)))) => (
            NetworkBlockState::Done(Err(error_of(failure))),
            None,
        ),
        (NetworkBlockState::Validating { block }, Some(Reply::PostChecked(Ok(post_checked)))) => (
            NetworkBlockState::Applying,
            Some(Request::ApplyBlock { post_checked, block }),
        ),
        (NetworkBlockState::Validating { .. }, Some(Reply::PostChecked(Err(failure)))) => (
            NetworkBlockState::Done(Err(error_of(failure))),
            None,
        ),
        (NetworkBlockState::Applying, Some(Reply::Applied(Ok(_)))) => (
            NetworkBlockState::Done(Ok(())),
            None,
        ),
        (NetworkBlockState::Applying, Some(Reply::Applied(Err(failure)))) => (
            NetworkBlockState::Done(Err(error_of(failure))),
            None,
        ),
        _ => (state, None),
    }
}

/// Takes the flow for a pushed block one step further.
///
/// `reply` answers the request of the step before; the first step takes
/// `None`. The result is the next state and the next request. Nothing is
/// handed to `network_msg_box`: a pushed block whose parent is missing is an
/// error, not a reason to pull.
pub fn process_network_block(
    state: NetworkBlockState,
    reply: Option<Reply>,
    network_msg_box: &mut MessageBox,
) -> (next: (NetworkBlockState, Option<Request>))
    ensures
        next == network_block_step(state, reply),
        *final(network_msg_box) == *old(network_msg_box),
{
    match (state, reply) {
        (NetworkBlockState::Received { block }, None) => {
            let header = block.header();
            (NetworkBlockState::Classifying { block }, Some(Request::PreCheckHeader(header)))
        },
        (NetworkBlockState::Classifying { block }, Some(Reply::PreChecked(Ok(pre_checked)))) => {
            match pre_checked {
                PreCheckedHeader::AlreadyPresent { .. } => (NetworkBlockState::Done(Ok(())), None),
                PreCheckedHeader::MissingParent { header } => (
                    NetworkBlockState::Done(Err(Error::MissingParentBlockFromStorage(header))),
                    None,
                ),
                PreCheckedHeader::HeaderWithCache { header, parent_ref } => (
                    NetworkBlockState::Validating { block },
                    Some(Request::PostCheckHeader { header, parent: parent_ref }),
                ),
            }
        },
        (NetworkBlockState::Classifying { .. }, Some(Reply::PreChecked(Err(failure)))) => (
            NetworkBlockState::Done(Err(Error::from_failure(failure))),
            None,
        ),
        (NetworkBlockState::Validating { block }, Some(Reply::PostChecked(Ok(post_checked)))) => (
            NetworkBlockState::Applying,
            Some(Request::ApplyBlock { post_checked, block }),
        ),
        (NetworkBlockState::Validating { .. }, Some(Reply::PostChecked(Err(failure)))) => (
            NetworkBlockState::Done(Err(Error::from_failure(failure))),
            None,
        ),
        (NetworkBlockState::Applying, Some(Reply::Applied(Ok(_)))) => (
            NetworkBlockState::Done(Ok(())),
            None,
        ),
        (NetworkBlockState::Applying, Some(Reply::Applied(Err(failure)))) => (
            NetworkBlockState::Done(Err(Error::from_failure(failure))),
            None,
        ),
        (state, _) => (state, None),
    }
}

/// The flow as a function, for the runs of `requests_of` and `state_after`.
pub open spec fn network_block_flow() -> spec_fn(NetworkBlockState, Option<Reply>) -> (
    NetworkBlockState,
    Option<Request>,
) {
    |state: NetworkBlockState, reply: Option<Reply>| network_block_step(state, reply)
}

/// How the flow ends, given the answers of the classifier, the validator and
/// the applier. Success for a block already in the index, with the other two
/// not asked; the error that names the header for an orphan; else the first
/// failure among the three; else success.
pub open spec fn network_block_outcome(
    pre_checked: Result<PreCheckedHeader, Failure>,
    post_checked: Result<PostCheckedHeader, Failure>,
    applied: Result<Ref, Failure>,
) -> Result<(), Error> {
    match pre_checked {
        Err(failure) => Err(error_of(failure)),
        Ok(PreCheckedHeader::AlreadyPresent { .. }) => Ok(()),
        Ok(PreCheckedHeader::MissingParent { header }) => Err(
            Error::MissingParentBlockFromStorage(header),
        ),
        Ok(PreCheckedHeader::HeaderWithCache { .. }) => match (post_checked, applied) {
            (Err(failure), _) => Err(error_of(failure)),
            (Ok(_), Err(failure)) => Err(error_of(failure)),
            (Ok(_), Ok(_)) => Ok(()),
        },
    }
}

/// What the flow asks, given the answers of the classifier and the validator:
/// always the class of the block's header; the validation only of a new header
/// with a known parent, against the parent the classifier found; the
/// application only once the validator passed the header, with the validator's
/// token and the block that was pushed.
pub open spec fn network_block_requests(
    block: Block,
    pre_checked: Result<PreCheckedHeader, Failure>,
    post_checked: Result<PostCheckedHeader, Failure>,
) -> Seq<Request> {
    let classification = Request::PreCheckHeader(block.header);
    match pre_checked {
        Ok(PreCheckedHeader::HeaderWithCache { header, parent_ref }) => {
            let validation = Request::PostCheckHeader { header, parent: parent_ref };
            match post_checked {
                Ok(token) => seq![
                    classification,
                    validation,
                    Request::ApplyBlock { post_checked: token, block },
                ],
                Err(_) => seq![classification, validation],
            }
        },
        _ => seq![classification],
    }
}

/// Once the flow is over, no reply moves it and it asks nothing more.
pub proof fn lemma_network_block_done_is_final(
    result: Result<(), Error>,
    replies: Seq<Option<Reply>>,
)
    ensures
        state_after(network_block_flow(), NetworkBlockState::Done(result), replies)
            == NetworkBlockState::Done(result),
        requests_of(network_block_flow(), NetworkBlockState::Done(result), replies)
            == Seq::<Request>::empty(),
{
    lemma_settled_flow_stays(network_block_flow(), NetworkBlockState::Done(result), replies);
}

/// A pushed block whose requests are answered is classified, then validated,
/// then applied, as far as each answer lets the flow go on: it asks what
/// `network_block_requests` says and ends as `network_block_outcome` says.
/// Replies that come after the end change nothing.
pub proof fn lemma_network_block_run(
    block: Block,
    pre_checked: Result<PreCheckedHeader, Failure>,
    post_checked: Result<PostCheckedHeader, Failure>,
    applied: Result<Ref, Failure>,
    rest: Seq<Option<Reply>>,
)
    ensures
        ({
            let start = NetworkBlockState::Received { block };
            let replies = seq![
                None,
                Some(Reply::PreChecked(pre_checked)),
                Some(Reply::PostChecked(post_checked)),
                Some(Reply::Applied(applied)),
            ] + rest;
            &&& state_after(network_block_flow(), start, replies) == NetworkBlockState::Done(
                network_block_outcome(pre_checked, post_checked, applied),
            )
            &&& requests_of(network_block_flow(), start, replies) == network_block_requests(
                block,
                pre_checked,
                post_checked,
            )
        }),
{
    let flow = network_block_flow();
    let start = NetworkBlockState::Received { block };
    let first = None::<Reply>;
    let second = Some(Reply::PreChecked(pre_checked));
    let third = Some(Reply::PostChecked(post_checked));
    let fourth = Some(Reply::Applied(applied));
    let replies = seq![first, second, third, fourth] + rest;
    assert(replies =~= seq![first] + (seq![second] + (seq![third] + (seq![fourth] + rest))));
    let classifying = flow(start, first);
    let validating = flow(classifying.0, second);
    let applying = flow(validating.0, third);
    let done = flow(applying.0, fourth);
    lemma_run_unfolds(flow, start, first, seq![second] + (seq![third] + (seq![fourth] + rest)));
    lemma_run_unfolds(flow, classifying.0, second, seq![third] + (seq![fourth] + rest));
    lemma_run_unfolds(flow, validating.0, third, seq![fourth] + rest);
    lemma_run_unfolds(flow, applying.0, fourth, rest);
    let result = network_block_outcome(pre_checked, post_checked, applied);
    assert(done.0 == NetworkBlockState::Done(result));
    lemma_network_block_done_is_final(result, rest);
    let none = Seq::<Request>::empty();
    let asked = requests_of(flow, start, replies);
    assert(asked =~= network_block_requests(block, pre_checked, post_checked)) by {
        let classification = Request::PreCheckHeader(block.header);
        match pre_checked {
            Ok(PreCheckedHeader::HeaderWithCache { header, parent_ref }) => {
                let validation = Request::PostCheckHeader { header, parent: parent_ref };
                match post_checked {
                    Ok(token) => {
                        let application = Request::ApplyBlock { post_checked: token, block };
                        assert(asked == seq![classification] + (seq![validation] + (seq![
                            application,
                        ] + (none + none))));
                    },
                    Err(_) => {
                        assert(asked == seq![classification] + (seq![validation] + (none + (none
                            + none))));
                    },
                }
            },
            _ => {
                assert(asked == seq![classification] + (none + (none + (none + none))));
            },
        }
    }
}

/// A block that the index already holds is taken in without work: the flow
/// asks for the class of its header and for nothing else, so nothing is
/// validated and nothing applied, and it ends in success.
pub proof fn lemma_network_block_duplicate_is_noop(
    index: ChainIndex,
    block: Block,
    rest: Seq<Option<Reply>>,
)
    requires
        index.dom().contains(block.header.hash),
    ensures
        ({
            let start = NetworkBlockState::Received { block };
            let replies = seq![None, Some(Reply::PreChecked(Ok(classify(index, block.header))))]
                + rest;
            &&& state_after(network_block_flow(), start, replies) == NetworkBlockState::Done(
                Ok(()),
            )
            &&& requests_of(network_block_flow(), start, replies) == seq![
                Request::PreCheckHeader(block.header),
            ]
        }),
{
    let flow = network_block_flow();
    let start = NetworkBlockState::Received { block };
    let first = None::<Reply>;
    let second = Some(Reply::PreChecked(Ok(classify(index, block.header))));
    assert(seq![first, second] + rest =~= seq![first] + (seq![second] + rest));
    lemma_run_unfolds(flow, start, first, seq![second] + rest);
    lemma_run_unfolds(flow, flow(start, first).0, second, rest);
    lemma_network_block_done_is_final(Ok(()), rest);
    let none = Seq::<Request>::empty();
    let classification = Request::PreCheckHeader(block.header);
    assert(seq![classification] + (none + none) =~= seq![classification]);
}

/// A pushed block is applied only on top of a parent that the index holds, and
/// only if the index does not hold the block yet: when the classifier answers
/// from `index`, the flow asks for an application at most in that case, and
/// then it has asked for the validation against the parent's own handle.
pub proof fn lemma_network_block_admits_no_orphan(
    index: ChainIndex,
    block: Block,
    post_checked: Result<PostCheckedHeader, Failure>,
    applied: Result<Ref, Failure>,
    rest: Seq<Option<Reply>>,
)
    ensures
        ({
            let start = NetworkBlockState::Received { block };
            let replies = seq![
                None,
                Some(Reply::PreChecked(Ok(classify(index, block.header)))),
                Some(Reply::PostChecked(post_checked)),
                Some(Reply::Applied(applied)),
            ] + rest;
            let requests = requests_of(network_block_flow(), start, replies);
            forall|i: int|
                0 <= i < requests.len() && #[trigger] requests[i] is ApplyBlock ==> {
                    &&& index.dom().contains(block.header.parent_hash)
                    &&& !index.dom().contains(block.header.hash)
                    &&& requests[i]->block == block
                    &&& i == 2
                    &&& requests[1] == (Request::PostCheckHeader {
                        header: block.header,
                        parent: index[block.header.parent_hash],
                    })
                }
        }),
{
    lemma_network_block_run(
        block,
        Ok(classify(index, block.header)),
        post_checked,
        applied,
        rest,
    );
}

/// What the flow may still ask from `state` on: the class, the validation and
/// the application, in this order and from the first that was not asked yet,
/// each at most once, and the application only of `state`'s own block.
pub open spec fn network_block_asks_in_order(state: NetworkBlockState, requests: Seq<Request>)
    -> bool {
    match state {
        NetworkBlockState::Received { block } => {
            &&& requests.len() <= 3
            &&& requests.len() >= 1 ==> requests[0] == Request::PreCheckHeader(block.header)
            &&& requests.len() >= 2 ==> requests[1] is PostCheckHeader
            &&& requests.len() >= 3 ==> requests[2] is ApplyBlock && requests[2]->block == block
        },
        NetworkBlockState::Classifying { block } => {
            &&& requests.len() <= 2
            &&& requests.len() >= 1 ==> requests[0] is PostCheckHeader
            &&& requests.len() >= 2 ==> requests[1] is ApplyBlock && requests[1]->block == block
        },
        NetworkBlockState::Validating { block } => {
            &&& requests.len() <= 1
            &&& requests.len() >= 1 ==> requests[0] is ApplyBlock && requests[0]->block == block
        },
        NetworkBlockState::Applying => requests.len() == 0,
        NetworkBlockState::Done(_) => requests.len() == 0,
    }
}

/// Whatever the replies, also ones that answer nothing that was asked, the
/// flow classifies before it validates and validates before it applies, and
/// does each at most once: its requests are the classification of the block's
/// header, a validation, and the application of that block, or a beginning of
/// these three.
pub proof fn lemma_network_block_asks_in_order(
    state: NetworkBlockState,
    replies: Seq<Option<Reply>>,
)
    ensures
        network_block_asks_in_order(state, requests_of(network_block_flow(), state, replies)),
    decreases replies.len(),
{
    if replies.len() > 0 {
        let taken = network_block_step(state, replies.first());
        lemma_network_block_asks_in_order(taken.0, replies.drop_first());
    }
}

/// A reply that does not answer the request just made changes nothing: the
/// flow stays where it is and asks nothing. So does the sign to begin once
/// the flow has begun.
pub proof fn lemma_network_block_ignores_strays(
    before: NetworkBlockState,
    earlier: Option<Reply>,
    stray: Option<Reply>,
)
    requires
        network_block_step(before, earlier).1 is Some,
        stray is Some ==> !network_block_step(before, earlier).1->0.is_answered_by(stray->0),
    ensures
        network_block_step(network_block_step(before, earlier).0, stray) == (
            network_block_step(before, earlier).0,
            None::<Request>,
        ),
{
}

/// A block whose application fails is still new afterwards, as long as the
/// applier kept its word and left the index alone. The flow asks for the
/// application only of a block that the index `before` does not hold, on top
/// of a parent that it holds; it ends with the applier's failure and asks
/// nothing more; and against an index `after` that answers as `before` did,
/// the block's header is classified as it was: new, with the same parent, and
/// not as present.
pub proof fn lemma_failed_application_leaves_the_block_new(
    before: ChainIndex,
    after: ChainIndex,
    block: Block,
    token: PostCheckedHeader,
    failure: Failure,
    rest: Seq<Option<Reply>>,
)
    requires
        classify(before, block.header) is HeaderWithCache,
        lookup(after, block.header.hash) == lookup(before, block.header.hash),
        lookup(after, block.header.parent_hash) == lookup(before, block.header.parent_hash),
    ensures
        ({
            let start = NetworkBlockState::Received { block };
            let replies = seq![
                None,
                Some(Reply::PreChecked(Ok(classify(before, block.header)))),
                Some(Reply::PostChecked(Ok(token))),
                Some(Reply::Applied(Err(failure))),
            ] + rest;
            &&& state_after(network_block_flow(), start, replies) == NetworkBlockState::Done(
                Err(error_of(failure)),
            )
            &&& requests_of(network_block_flow(), start, replies) == seq![
                Request::PreCheckHeader(block.header),
                Request::PostCheckHeader {
                    header: block.header,
                    parent: before[block.header.parent_hash],
                },
                Request::ApplyBlock { post_checked: token, block },
            ]
            &&& classify(after, block.header) == classify(before, block.header)
            &&& !(classify(after, block.header) is AlreadyPresent)
        }),
{
    lemma_network_block_run(
        block,
        Ok(classify(before, block.header)),
        Ok(token),
        Err(failure),
        rest,
    );
    lemma_classification_reads_two_entries(before, after, block.header);
}

} // verus!
