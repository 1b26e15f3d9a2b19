//! What a flow asks of its collaborators, and what they answer.
//!
//! The chain index, the validator, the applier, the checkpoint resolver and
//! the source of headers all suspend the caller. A flow therefore names the
//! work as a `Request` and ends its step; the caller does the work and starts
//! the next step with the `Reply`.

use crate::chain::{Block, Branch, Header, HeaderHash, PostCheckedHeader, Ref};
use crate::classifier::PreCheckedHeader;
use crate::error::Failure;
use vstd::prelude::*;

verus! {

/// Work for a collaborator.
#[derive(Debug, PartialEq, Eq)]
pub enum Request {
    /// Classify this header against the chain index.
    PreCheckHeader(Header),
    /// Validate this header against the chain state of `parent`.
    PostCheckHeader { header: Header, parent: Ref },
    /// Apply this block, whose header `post_checked` vouches for.
    ApplyBlock { post_checked: PostCheckedHeader, block: Block },
    /// Find the checkpoints of this branch.
    GetCheckpoints(Branch),
    /// Take the next header from the sequence being read.
    NextHeader,
}

/// A collaborator's answer.
#[derive(Debug, PartialEq, Eq)]
pub enum Reply {
    /// The class of the header, or why the index could not be read.
    PreChecked(Result<PreCheckedHeader, Failure>),
    /// The validator's token, or why the header was rejected.
    PostChecked(Result<PostCheckedHeader, Failure>),
    /// The handle of the admitted block, or why it was not admitted.
    Applied(Result<Ref, Failure>),
    /// The checkpoints, in the resolver's order, or why they could not be
    /// found.
    Checkpoints(Result<Vec<HeaderHash>, Failure>),
    /// The next header, `None` at the end of the sequence, or why the
    /// sequence broke off.
    NextHeader(Result<Option<Header>, Failure>),
}

impl Request {
    /// Whether `reply` is an answer to this request.
    pub open spec fn is_answered_by(self, reply: Reply) -> bool {
        match self {
            Request::PreCheckHeader(_) => reply is PreChecked,
            Request::PostCheckHeader { .. } => reply is PostChecked,
            Request::ApplyBlock { .. } => reply is Applied,
            Request::GetCheckpoints(_) => reply is Checkpoints,
            Request::NextHeader => reply is NextHeader,
        }
    }
}

/// The requests that a flow makes, in order, when it is taken through
/// `replies` from `state`, one step for each reply; `step` is the flow.
pub open spec fn requests_of<S>(
    step: spec_fn(S, Option<Reply>) -> (S, Option<Request>),
    state: S,
    replies: Seq<Option<Reply>>,
) -> Seq<Request>
    decreases replies.len(),
{
    if replies.len() == 0 {
        Seq::empty()
    } else {
        let (next, request) = step(state, replies.first());
        let rest = requests_of(step, next, replies.drop_first());
        match request {
            Some(request) => seq![request] + rest,
            None => rest,
        }
    }
}

/// The state that a flow is in after it was taken through `replies` from
/// `state`.
pub open spec fn state_after<S>(
    step: spec_fn(S, Option<Reply>) -> (S, Option<Request>),
    state: S,
    replies: Seq<Option<Reply>>,
) -> S
    decreases replies.len(),
{
    if replies.len() == 0 {
        state
    } else {
        state_after(step, step(state, replies.first()).0, replies.drop_first())
    }
}

/// The request of one step as a sequence: one element, or none.
pub open spec fn asked(request: Option<Request>) -> Seq<Request> {
    match request {
        Some(request) => seq![request],
        None => Seq::empty(),
    }
}

/// Taking a flow through `reply` and then through `rest` is one step followed
/// by the run through `rest` from where that step led.
pub proof fn lemma_run_unfolds<S>(
    step: spec_fn(S, Option<Reply>) -> (S, Option<Request>),
    state: S,
    reply: Option<Reply>,
    rest: Seq<Option<Reply>>,
)
    ensures
        state_after(step, state, seq![reply] + rest) == state_after(
            step,
            step(state, reply).0,
            rest,
        ),
        requests_of(step, state, seq![reply] + rest) == asked(step(state, reply).1) + requests_of(
            step,
            step(state, reply).0,
            rest,
        ),
{
    let replies = seq![reply] + rest;
    assert(replies.first() == reply);
    assert(replies.drop_first() =~= rest);
    let tail = requests_of(step, step(state, reply).0, rest);
    assert(Seq::<Request>::empty() + tail =~= tail);
}

/// A run through `first` and then `rest` asks what the run through `first`
/// asks, and then what the run through `rest` asks from where the first run
/// ended; and it ends where that second run ends.
pub proof fn lemma_run_splits<S>(
    step: spec_fn(S, Option<Reply>) -> (S, Option<Request>),
    state: S,
    first: Seq<Option<Reply>>,
    rest: Seq<Option<Reply>>,
)
    ensures
        state_after(step, state, first + rest) == state_after(
            step,
            state_after(step, state, first),
            rest,
        ),
        requests_of(step, state, first + rest) == requests_of(step, state, first) + requests_of(
            step,
            state_after(step, state, first),
            rest,
        ),
    decreases first.len(),
{
    if first.len() == 0 {
        assert(first + rest =~= rest);
        let tail = requests_of(step, state, rest);
        assert(Seq::<Request>::empty() + tail =~= tail);
    } else {
        let reply = first.first();
        let next = step(state, reply).0;
        assert(first =~= seq![reply] + first.drop_first());
        assert(first + rest =~= seq![reply] + (first.drop_first() + rest));
        lemma_run_unfolds(step, state, reply, first.drop_first());
        lemma_run_unfolds(step, state, reply, first.drop_first() + rest);
        lemma_run_splits(step, next, first.drop_first(), rest);
        let a = asked(step(state, reply).1);
        let b = requests_of(step, next, first.drop_first());
        let c = requests_of(step, state_after(step, next, first.drop_first()), rest);
        assert(a + (b + c) =~= (a + b) + c);
    }
}

/// What holds of every state that a flow can be in holds of the state after
/// any run, and what holds of every request that a step can make holds of every
/// request of the run: `holds` is kept by each step, and each step taken where
/// `holds` is true asks only what `allowed` admits.
pub proof fn lemma_run_keeps<S>(
    step: spec_fn(S, Option<Reply>) -> (S, Option<Request>),
    holds: spec_fn(S) -> bool,
    allowed: spec_fn(Request) -> bool,
    state: S,
    replies: Seq<Option<Reply>>,
)
    requires
        holds(state),
        forall|s: S, reply: Option<Reply>| holds(s) ==> holds(#[trigger] step(s, reply).0),
        forall|s: S, reply: Option<Reply>|
            holds(s) && (#[trigger] step(s, reply)).1 is Some ==> allowed(step(s, reply).1->0),
    ensures
        holds(state_after(step, state, replies)),
        forall|i: int|
            0 <= i < requests_of(step, state, replies).len() ==> allowed(
                #[trigger] requests_of(step, state, replies)[i],
            ),
    decreases replies.len(),
{
    if replies.len() > 0 {
        let taken = step(state, replies.first());
        assert(holds(taken.0));
        lemma_run_keeps(step, holds, allowed, taken.0, replies.drop_first());
        let rest = requests_of(step, taken.0, replies.drop_first());
        let all = requests_of(step, state, replies);
        assert(all == asked(taken.1) + rest);
        assert forall|i: int| 0 <= i < all.len() implies allowed(#[trigger] all[i]) by {
            if taken.1 is Some {
                if i > 0 {
                    assert(all[i] == rest[i - 1]);
                }
            } else {
                assert(all[i] == rest[i]);
            }
        }
    }
}

/// A flow in a state that no reply moves, and in which no step asks anything,
/// stays there and asks nothing, whatever the replies.
pub proof fn lemma_settled_flow_stays<S>(
    step: spec_fn(S, Option<Reply>) -> (S, Option<Request>),
    state: S,
    replies: Seq<Option<Reply>>,
)
    requires
        forall|reply: Option<Reply>| #[trigger] step(state, reply) == (state, None::<Request>),
    ensures
        state_after(step, state, replies) == state,
        requests_of(step, state, replies) == Seq::<Request>::empty(),
    decreases replies.len(),
{
    if replies.len() > 0 {
        assert(step(state, replies.first()) == (state, None::<Request>));
        lemma_settled_flow_stays(step, state, replies.drop_first());
    }
}

} // verus!
