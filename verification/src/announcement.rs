//! The flow for a header that a peer announces.

use crate::chain::{Branch, Header, HeaderHash};
use crate::classifier::{classify, ChainIndex, PreCheckedHeader};
use crate::collaborator::{
    lemma_run_unfolds, lemma_settled_flow_stays, requests_of, state_after, Reply, Request,
};
use crate::error::{error_of, Error, Failure};
use crate::network::{MessageBox, NetworkMsg, NodeId, SendOutcome};
use vstd::prelude::*;

verus! {

/// Where the flow for an announced header stands.
#[derive(Debug, PartialEq, Eq)]
pub enum AnnouncementState {
    /// `node_id` announced `header`; nothing was asked yet. `branch` is the
    /// chain to look for checkpoints on, should the header turn out an orphan.
    Announced { branch: Branch, header: Header, node_id: NodeId },
    /// The class of the header was asked for.
    Classifying { branch: Branch, node_id: NodeId },
    /// The header is an orphan with identifier `to`; the checkpoints to pull
    /// its ancestors from were asked for.
    Anchoring { node_id: NodeId, to: HeaderHash },
    /// The flow is over.
    Done(Result<(), Error>),
}

/// One step of the flow: the state it moves to and what it asks next.
///
/// A header already in the index ends the flow at once. For an orphan the
/// flow asks for the checkpoints of the branch, and ends when they arrive. A
/// new header with a known parent ends the flow too. A collaborator's failure
/// ends it with that failure. A reply that does not answer what the state is
/// waiting for changes nothing.
pub open spec fn announcement_step(state: AnnouncementState, reply: Option<Reply>) -> (
    AnnouncementState,
    Option<Request>,
) {
    match (state, reply) {
        (AnnouncementState::Announced { branch, header, node_id }, None) => (
            AnnouncementState::Classifying { branch, node_id },
            Some(Request::PreCheckHeader(header)),
        ),
        (
            AnnouncementState::Classifying { branch, node_id },
            Some(Reply::PreChecked(Ok(pre_checked))),
        ) => match pre_checked {
            PreCheckedHeader::AlreadyPresent { .. } => (AnnouncementState::Done(Ok(())), None),
            PreCheckedHeader::MissingParent { header } => (
                AnnouncementState::Anchoring { node_id, to: header.hash },
                Some(Request::GetCheckpoints(branch)),
            ),
            PreCheckedHeader::HeaderWithCache { .. } => (AnnouncementState::Done(Ok(())), None),
        },
        (AnnouncementState::Classifying { .. }, Some(Reply::PreChecked(Err(failure)))) => (
            AnnouncementState::Done(Err(error_of(failure))),
            None,
        ),
        (AnnouncementState::Anchoring { .. }, Some(Reply::Checkpoints(Ok(_)))) => (
            AnnouncementState::Done(Ok(())),
            None,
        ),
        (AnnouncementState::Anchoring { .. }, Some(Reply::Checkpoints(Err(failure)))) => (
            AnnouncementState::Done(Err(error_of(failure))),
            None,
        ),
        _ => (state, None),
    }
}

/// The message that a step hands to the network task, if any: for a new
/// header with a known parent, a request for its block; for an orphan whose
/// checkpoints arrived, a pull of the headers from those checkpoints up to
/// the orphan. Both go to the peer that announced the header.
pub open spec fn announcement_message(state: AnnouncementState, reply: Option<Reply>) -> Option<
    NetworkMsg,
> {
    match (state, reply) {
        (
            AnnouncementState::Classifying { node_id, .. },
            Some(Reply::PreChecked(Ok(PreCheckedHeader::HeaderWithCache { header, .. }))),
        ) => Some(NetworkMsg::GetNextBlock(node_id, header.hash)),
        (AnnouncementState::Anchoring { node_id, to }, Some(Reply::Checkpoints(Ok(from)))) => Some(
            NetworkMsg::PullHeaders { node_id, from, to },
        ),
        _ => None,
    }
}

/// Takes the flow for an announced header one step further.
///
/// `reply` answers the request of the step before; the first step takes
/// `None`. The result is the next state, the next request, and, where this
/// step handed a message to `network_msg_box`, what became of it. A message
/// that the channel did not take is lost and the flow ends in success all the
/// same: the outcome is for the caller's log.
pub fn process_block_announcement(
    state: AnnouncementState,
    reply: Option<Reply>,
    network_msg_box: &mut MessageBox,
) -> (next: (AnnouncementState, Option<Request>, Option<SendOutcome>))
    ensures
        (next.0, next.1) == announcement_step(state, reply),
        final(network_msg_box).handed() == match announcement_message(state, reply) {
            Some(msg) => old(network_msg_box).handed().push(msg),
            None => old(network_msg_box).handed(),
        },
        next.2 is Some <==> announcement_message(state, reply) is Some,
        next.2 is Some ==> next.0 == AnnouncementState::Done(Ok(())),
{
    match (state, reply) {
        (AnnouncementState::Announced { branch, header, node_id }, None) => (
            AnnouncementState::Classifying { branch, node_id },
            Some(Request::PreCheckHeader(header)),
            None,
        ),
        (
            AnnouncementState::Classifying { branch, node_id },
            Some(Reply::PreChecked(Ok(pre_checked))),
        ) => match pre_checked {
            PreCheckedHeader::AlreadyPresent { .. } => (AnnouncementState::Done(Ok(())), None, None),
            PreCheckedHeader::MissingParent { header } => (
                AnnouncementState::Anchoring { node_id, to: header.hash() },
                Some(Request::GetCheckpoints(branch)),
                None,
            ),
            PreCheckedHeader::HeaderWithCache { header, .. } => {
                let outcome = network_msg_box.try_send(
                    NetworkMsg::GetNextBlock(node_id, header.hash()),
                );
                (AnnouncementState::Done(Ok(())), None, Some(outcome))
            },
        },
        (AnnouncementState::Classifying { .. }, Some(Reply::PreChecked(Err(failure)))) => (
            AnnouncementState::Done(Err(Error::from_failure(failure))),
            None,
            None,
        ),
        (AnnouncementState::Anchoring { node_id, to }, Some(Reply::Checkpoints(Ok(from)))) => {
            let outcome = network_msg_box.try_send(NetworkMsg::PullHeaders { node_id, from, to });
            (AnnouncementState::Done(Ok(())), None, Some(outcome))
        },
        (AnnouncementState::Anchoring { .. }, Some(Reply::Checkpoints(Err(failure)))) => (
            AnnouncementState::Done(Err(Error::from_failure(failure))),
            None,
            None,
        ),
        (state, _) => (state, None, None),
    }
}

/// The flow as a function, for the runs of `requests_of` and `state_after`.
pub open spec fn announcement_flow() -> spec_fn(AnnouncementState, Option<Reply>) -> (
    AnnouncementState,
    Option<Request>,
) {
    |state: AnnouncementState, reply: Option<Reply>| announcement_step(state, reply)
}

/// The message of one step as a sequence: one element, or none.
pub open spec fn handed_over(message: Option<NetworkMsg>) -> Seq<NetworkMsg> {
    match message {
        Some(message) => seq![message],
        None => Seq::empty(),
    }
}

/// The messages that the flow hands to the network task, in order, when it is
/// taken through `replies` from `state`.
pub open spec fn announcement_messages(state: AnnouncementState, replies: Seq<Option<Reply>>)
    -> Seq<NetworkMsg>
    decreases replies.len(),
{
    if replies.len() == 0 {
        Seq::empty()
    } else {
        handed_over(announcement_message(state, replies.first())) + announcement_messages(
            announcement_step(state, replies.first()).0,
            replies.drop_first(),
        )
    }
}

/// How the flow ends, given the answers of the classifier and of the
/// checkpoint resolver: with the classifier's failure; for an orphan, with the
/// resolver's failure if it failed; in every other case in success.
pub open spec fn announcement_outcome(
    pre_checked: Result<PreCheckedHeader, Failure>,
    checkpoints: Result<Vec<HeaderHash>, Failure>,
) -> Result<(), Error> {
    match (pre_checked, checkpoints) {
        (Err(failure), _) => Err(error_of(failure)),
        (Ok(PreCheckedHeader::MissingParent { .. }), Err(failure)) => Err(error_of(failure)),
        _ => Ok(()),
    }
}

/// What the flow asks, given the classifier's answer: always the class of the
/// announced header, and the checkpoints of the branch only for an orphan.
pub open spec fn announcement_requests(
    branch: Branch,
    header: Header,
    pre_checked: Result<PreCheckedHeader, Failure>,
) -> Seq<Request> {
    match pre_checked {
        Ok(PreCheckedHeader::MissingParent { .. }) => seq![
            Request::PreCheckHeader(header),
            Request::GetCheckpoints(branch),
        ],
        _ => seq![Request::PreCheckHeader(header)],
    }
}

/// What the flow hands to the network task, given the answers of the
/// classifier and of the checkpoint resolver: nothing for a header already in
/// the index; for a new header with a known parent, one request to `node_id`
/// for its block; for an orphan whose checkpoints were found, one pull by
/// `node_id` of the headers from those checkpoints to the orphan; nothing
/// where a collaborator failed.
pub open spec fn announcement_sent(
    node_id: NodeId,
    pre_checked: Result<PreCheckedHeader, Failure>,
    checkpoints: Result<Vec<HeaderHash>, Failure>,
) -> Seq<NetworkMsg> {
    match (pre_checked, checkpoints) {
        (Ok(PreCheckedHeader::HeaderWithCache { header, .. }), _) => seq![
            NetworkMsg::GetNextBlock(node_id, header.hash),
        ],
        (Ok(PreCheckedHeader::MissingParent { header }), Ok(from)) => seq![
            NetworkMsg::PullHeaders { node_id, from, to: header.hash },
        ],
        _ => Seq::empty(),
    }
}

/// Taking the flow through `reply` and then through `rest` hands over the
/// message of that step, and then those of the run through `rest`.
pub proof fn lemma_announcement_messages_unfold(
    state: AnnouncementState,
    reply: Option<Reply>,
    rest: Seq<Option<Reply>>,
)
    ensures
        announcement_messages(state, seq![reply] + rest) == handed_over(
            announcement_message(state, reply),
        ) + announcement_messages(announcement_step(state, reply).0, rest),
{
    let replies = seq![reply] + rest;
    assert(replies.first() == reply);
    assert(replies.drop_first() =~= rest);
}

/// Once the flow is over, no reply moves it, it asks nothing more and hands
/// nothing more to the network task.
pub proof fn lemma_announcement_done_is_final(
    result: Result<(), Error>,
    replies: Seq<Option<Reply>>,
)
    ensures
        state_after(announcement_flow(), AnnouncementState::Done(result), replies)
            == AnnouncementState::Done(result),
        requests_of(announcement_flow(), AnnouncementState::Done(result), replies)
            == Seq::<Request>::empty(),
        announcement_messages(AnnouncementState::Done(result), replies)
            == Seq::<NetworkMsg>::empty(),
    decreases replies.len(),
{
    let done = AnnouncementState::Done(result);
    lemma_settled_flow_stays(announcement_flow(), done, replies);
    if replies.len() > 0 {
        lemma_announcement_done_is_final(result, replies.drop_first());
        let none = Seq::<NetworkMsg>::empty();
        assert(none + none =~= none);
    }
}

/// An announced header whose requests are answered is classified, and for an
/// orphan the checkpoints of the branch are looked up: the flow asks what
/// `announcement_requests` says, hands to the network task what
/// `announcement_sent` says, and ends as `announcement_outcome` says. Replies
/// that come after the end change nothing.
pub proof fn lemma_announcement_run(
    branch: Branch,
    header: Header,
    node_id: NodeId,
    pre_checked: Result<PreCheckedHeader, Failure>,
    checkpoints: Result<Vec<HeaderHash>, Failure>,
    rest: Seq<Option<Reply>>,
)
    ensures
        ({
            let start = AnnouncementState::Announced { branch, header, node_id };
            let replies = seq![
                None,
                Some(Reply::PreChecked(pre_checked)),
                Some(Reply::Checkpoints(checkpoints)),
            ] + rest;
            &&& state_after(announcement_flow(), start, replies) == AnnouncementState::Done(
                announcement_outcome(pre_checked, checkpoints),
            )
            &&& requests_of(announcement_flow(), start, replies) == announcement_requests(
                branch,
                header,
                pre_checked,
            )
            &&& announcement_messages(start, replies) == announcement_sent(
                node_id,
                pre_checked,
                checkpoints,
            )
        }),
{
    let flow = announcement_flow();
    let start = AnnouncementState::Announced { branch, header, node_id };
    let first = None::<Reply>;
    let second = Some(Reply::PreChecked(pre_checked));
    let third = Some(Reply::Checkpoints(checkpoints));
    let replies = seq![first, second, third] + rest;
    assert(replies =~= seq![first] + (seq![second] + (seq![third] + rest)));
    let classifying = flow(start, first);
    let anchoring = flow(classifying.0, second);
    let done = flow(anchoring.0, third);
    lemma_run_unfolds(flow, start, first, seq![second] + (seq![third] + rest));
    lemma_run_unfolds(flow, classifying.0, second, seq![third] + rest);
    lemma_run_unfolds(flow, anchoring.0, third, rest);
    lemma_announcement_messages_unfold(start, first, seq![second] + (seq![third] + rest));
    lemma_announcement_messages_unfold(classifying.0, second, seq![third] + rest);
    lemma_announcement_messages_unfold(anchoring.0, third, rest);
    let result = announcement_outcome(pre_checked, checkpoints);
    assert(done.0 == AnnouncementState::Done(result));
    lemma_announcement_done_is_final(result, rest);
    let asked = requests_of(flow, start, replies);
    let sent = announcement_messages(start, replies);
    let no_request = Seq::<Request>::empty();
    let no_message = Seq::<NetworkMsg>::empty();
    let classification = Request::PreCheckHeader(header);
    match pre_checked {
        Ok(PreCheckedHeader::MissingParent { header: orphan }) => {
            assert(asked =~= seq![classification] + (seq![Request::GetCheckpoints(branch)] + (
            no_request + no_request)));
            match checkpoints {
                Ok(from) => {
                    let pull = NetworkMsg::PullHeaders { node_id, from, to: orphan.hash };
                    assert(sent =~= no_message + (no_message + (seq![pull] + no_message)));
                },
                Err(_) => {
                    assert(sent =~= no_message + (no_message + (no_message + no_message)));
                },
            }
        },
        Ok(PreCheckedHeader::HeaderWithCache { header: fresh, .. }) => {
            let fetch = NetworkMsg::GetNextBlock(node_id, fresh.hash);
            assert(asked =~= seq![classification] + (no_request + (no_request + no_request)));
            assert(sent =~= no_message + (seq![fetch] + (no_message + no_message)));
        },
        _ => {
            assert(asked =~= seq![classification] + (no_request + (no_request + no_request)));
            assert(sent =~= no_message + (no_message + (no_message + no_message)));
        },
    }
}

/// Announcing a header that the index already holds does nothing: the flow
/// asks for the class of the header and for nothing else, hands nothing to the
/// network task, and ends in success.
pub proof fn lemma_announced_duplicate_is_noop(
    index: ChainIndex,
    branch: Branch,
    header: Header,
    node_id: NodeId,
    checkpoints: Result<Vec<HeaderHash>, Failure>,
    rest: Seq<Option<Reply>>,
)
    requires
        index.dom().contains(header.hash),
    ensures
        ({
            let start = AnnouncementState::Announced { branch, header, node_id };
            let replies = seq![
                None,
                Some(Reply::PreChecked(Ok(classify(index, header)))),
                Some(Reply::Checkpoints(checkpoints)),
            ] + rest;
            &&& state_after(announcement_flow(), start, replies) == AnnouncementState::Done(
                Ok(()),
            )
            &&& requests_of(announcement_flow(), start, replies) == seq![
                Request::PreCheckHeader(header),
            ]
            &&& announcement_messages(start, replies) == Seq::<NetworkMsg>::empty()
        }),
{
    lemma_announcement_run(branch, header, node_id, Ok(classify(index, header)), checkpoints, rest);
}

/// Announcing a header whose parent the index does not hold pulls the headers
/// in between: once the checkpoints `from` of the branch arrive, the flow
/// hands to the network task exactly one message, the pull by the announcing
/// peer from `from` to the announced header, and it never asks for a block.
pub proof fn lemma_announced_orphan_pulls_headers(
    index: ChainIndex,
    branch: Branch,
    header: Header,
    node_id: NodeId,
    from: Vec<HeaderHash>,
    rest: Seq<Option<Reply>>,
)
    requires
        !index.dom().contains(header.hash),
        !index.dom().contains(header.parent_hash),
    ensures
        ({
            let start = AnnouncementState::Announced { branch, header, node_id };
            let replies = seq![
                None,
                Some(Reply::PreChecked(Ok(classify(index, header)))),
                Some(Reply::Checkpoints(Ok(from))),
            ] + rest;
            &&& state_after(announcement_flow(), start, replies) == AnnouncementState::Done(
                Ok(()),
            )
            &&& requests_of(announcement_flow(), start, replies) == seq![
                Request::PreCheckHeader(header),
                Request::GetCheckpoints(branch),
            ]
            &&& announcement_messages(start, replies) == seq![
                NetworkMsg::PullHeaders { node_id, from, to: header.hash },
            ]
        }),
{
    lemma_announcement_run(branch, header, node_id, Ok(classify(index, header)), Ok(from), rest);
}

/// Announcing a new header whose parent the index holds fetches its block:
/// the flow hands to the network task exactly one message, the request to the
/// announcing peer for the block of the announced header, and it pulls no
/// headers and asks for no checkpoints.
pub proof fn lemma_announced_child_fetches_block(
    index: ChainIndex,
    branch: Branch,
    header: Header,
    node_id: NodeId,
    checkpoints: Result<Vec<HeaderHash>, Failure>,
    rest: Seq<Option<Reply>>,
)
    requires
        !index.dom().contains(header.hash),
        index.dom().contains(header.parent_hash),
    ensures
        ({
            let start = AnnouncementState::Announced { branch, header, node_id };
            let replies = seq![
                None,
                Some(Reply::PreChecked(Ok(classify(index, header)))),
                Some(Reply::Checkpoints(checkpoints)),
            ] + rest;
            &&& state_after(announcement_flow(), start, replies) == AnnouncementState::Done(
                Ok(()),
            )
            &&& requests_of(announcement_flow(), start, replies) == seq![
                Request::PreCheckHeader(header),
            ]
            &&& announcement_messages(start, replies) == seq![
                NetworkMsg::GetNextBlock(node_id, header.hash),
            ]
        }),
{
    lemma_announcement_run(branch, header, node_id, Ok(classify(index, header)), checkpoints, rest);
}

/// A step that hands a message to the network task ends the flow in success,
/// and the step is the same whatever becomes of the message: a channel at
/// capacity, or one whose receiver is gone, loses the message and changes
/// nothing else.
pub proof fn lemma_announcement_outlives_the_channel(
    state: AnnouncementState,
    reply: Option<Reply>,
)
    requires
        announcement_message(state, reply) is Some,
    ensures
        announcement_step(state, reply) == (AnnouncementState::Done(Ok(())), None::<Request>),
{
}

/// The peer a message is for.
pub open spec fn addressee(message: NetworkMsg) -> NodeId {
    match message {
        NetworkMsg::PullHeaders { node_id, .. } => node_id,
        NetworkMsg::GetNextBlock(node_id, _) => node_id,
    }
}

/// What the flow may still do from `state` on: ask for the class and then the
/// checkpoints, from the first that was not asked yet and each at most once,
/// and hand over at most one message, to the peer that announced the header.
pub open spec fn announcement_stays_in_order(
    state: AnnouncementState,
    requests: Seq<Request>,
    messages: Seq<NetworkMsg>,
) -> bool {
    match state {
        AnnouncementState::Announced { branch, header, node_id } => {
            &&& requests.len() <= 2
            &&& requests.len() >= 1 ==> requests[0] == Request::PreCheckHeader(header)
            &&& requests.len() >= 2 ==> requests[1] == Request::GetCheckpoints(branch)
            &&& messages.len() <= 1
            &&& messages.len() >= 1 ==> addressee(messages[0]) == node_id
        },
        AnnouncementState::Classifying { branch, node_id } => {
            &&& requests.len() <= 1
            &&& requests.len() >= 1 ==> requests[0] == Request::GetCheckpoints(branch)
            &&& messages.len() <= 1
            &&& messages.len() >= 1 ==> addressee(messages[0]) == node_id
        },
        AnnouncementState::Anchoring { node_id, to } => {
            &&& requests.len() == 0
            &&& messages.len() <= 1
            &&& messages.len() >= 1 ==> messages[0] is PullHeaders && messages[0]->to == to
                && addressee(messages[0]) == node_id
        },
        AnnouncementState::Done(_) => requests.len() == 0 && messages.len() == 0,
    }
}

/// Whatever the replies, also ones that answer nothing that was asked, the
/// flow only reads the index: it never asks for a validation or an
/// application, it asks for the class and then at most once for the
/// checkpoints, and it hands at most one message to the network task, for the
/// peer that announced the header.
pub proof fn lemma_announcement_stays_in_order(
    state: AnnouncementState,
    replies: Seq<Option<Reply>>,
)
    ensures
        announcement_stays_in_order(
            state,
            requests_of(announcement_flow(), state, replies),
            announcement_messages(state, replies),
        ),
    decreases replies.len(),
{
    if replies.len() > 0 {
        let taken = announcement_step(state, replies.first());
        lemma_announcement_stays_in_order(taken.0, replies.drop_first());
    }
}

/// A reply that does not answer the request just made changes nothing: the
/// flow stays where it is, asks nothing and hands nothing to the network task.
/// So does the sign to begin once the flow has begun.
pub proof fn lemma_announcement_ignores_strays(
    before: AnnouncementState,
    earlier: Option<Reply>,
    stray: Option<Reply>,
)
    requires
        announcement_step(before, earlier).1 is Some,
        stray is Some ==> !announcement_step(before, earlier).1->0.is_answered_by(stray->0),
    ensures
        announcement_step(announcement_step(before, earlier).0, stray) == (
            announcement_step(before, earlier).0,
            None::<Request>,
        ),
        announcement_message(announcement_step(before, earlier).0, stray) is None,
{
}

} // verus!
