//! The flow that turns the headers a peer sent into the blocks to fetch.

use crate::chain::{Header, HeaderHash};
use crate::classifier::{classify, ChainIndex, PreCheckedHeader};
use crate::collaborator::{
    lemma_run_keeps, lemma_run_splits, lemma_run_unfolds, lemma_settled_flow_stays, requests_of,
    state_after, Reply, Request,
};
use crate::error::{error_of, Error};
use vstd::prelude::*;

verus! {

/// Where the flow over a sequence of headers stands.
#[derive(Debug, PartialEq, Eq)]
pub enum HeaderChainState {
    /// Nothing was asked yet.
    Started,
    /// The next header was asked for; `requests` are the blocks to fetch so
    /// far.
    Reading { requests: Vec<HeaderHash> },
    /// The class of the header just read was asked for.
    Classifying { requests: Vec<HeaderHash> },
    /// The flow is over, with the blocks to fetch or the error.
    Done(Result<Vec<HeaderHash>, Error>),
}

/// The state of the flow with its identifiers as a sequence.
pub enum HeaderChainView {
    Started,
    Reading { requests: Seq<HeaderHash> },
    Classifying { requests: Seq<HeaderHash> },
    Done(Result<Seq<HeaderHash>, Error>),
}

impl View for HeaderChainState {
    type V = HeaderChainView;

    open spec fn view(&self) -> HeaderChainView {
        match *self {
            HeaderChainState::Started => HeaderChainView::Started,
            HeaderChainState::Reading { requests } => HeaderChainView::Reading {
                requests: requests@,
            },
            HeaderChainState::Classifying { requests } => HeaderChainView::Classifying {
                requests: requests@,
            },
            HeaderChainState::Done(Ok(requests)) => HeaderChainView::Done(Ok(requests@)),
            HeaderChainState::Done(Err(error)) => HeaderChainView::Done(Err(error)),
        }
    }
}

/// One step of the flow: the state it moves to and what it asks next.
///
/// The flow reads one header at a time and has it classified. A header
/// already in the index adds nothing. A new header with a known parent adds
/// its identifier behind those gathered before. An orphan ends the flow with
/// the error that names its header, and what was gathered is dropped. The end
/// of the sequence ends the flow with the identifiers gathered. A
/// collaborator's failure ends it with that failure. A reply that does not
/// answer what the state is waiting for changes nothing.
pub open spec fn header_chain_step(state: HeaderChainView, reply: Option<Reply>) -> (
    HeaderChainView,
    Option<Request>,
) {
    match (state, reply) {
        (HeaderChainView::Started, None) => (
            HeaderChainView::Reading { requests: Seq::empty() },
            Some(Request::NextHeader),
        ),
        (HeaderChainView::Reading { requests }, Some(Reply::NextHeader(Ok(Some(header))))) => (
            HeaderChainView::Classifying { requests },
            Some(Request::PreCheckHeader(header)),
        ),
        (HeaderChainView::Reading { requests }, Some(Reply::NextHeader(Ok(None)))) => (
            HeaderChainView::Done(Ok(requests)),
            None,
        ),
        (HeaderChainView::Reading { .. }, Some(Reply::NextHeader(Err(failure)))) => (
            HeaderChainView::Done(Err(error_of(failure))),
            None,
        ),
        (HeaderChainView::Classifying { requests }, Some(Reply::PreChecked(Ok(pre_checked)))) => {
            match pre_checked {
                PreCheckedHeader::AlreadyPresent { .. } => (
                    HeaderChainView::Reading { requests },
                    Some(Request::NextHeader),
                ),
                PreCheckedHeader::MissingParent { header } => (
                    HeaderChainView::Done(Err(Error::MissingParentBlockFromStorage(header))),
                    None,
                ),
                PreCheckedHeader::HeaderWithCache { header, .. } => (
                    HeaderChainView::Reading { requests: requests.push(header.hash) },
                    Some(Request::NextHeader),
                ),
            }
        },
        (HeaderChainView::Classifying { .. }, Some(Reply::PreChecked(Err(failure)))) => (
            HeaderChainView::Done(Err(error_of(failure))),
            None,
        ),
        _ => (state, None),
    }
}

/// Takes the flow over a sequence of headers one step further.
///
/// `reply` answers the request of the step before; the first step takes
/// `None`. The result is the next state and the next request.
pub fn process_chain_headers_into_block_request(
    state: HeaderChainState,
    reply: Option<Reply>,
) -> (next: (HeaderChainState, Option<Request>))
    ensures
        (next.0@, next.1) == header_chain_step(state@, reply),
{
    match (state, reply) {
        (HeaderChainState::Started, None) => (
            HeaderChainState::Reading { requests: Vec::new() },
            Some(Request::NextHeader),
        ),
        (HeaderChainState::Reading { requests }, Some(Reply::NextHeader(Ok(Some(header))))) => (
            HeaderChainState::Classifying { requests },
            Some(Request::PreCheckHeader(header)),
        ),
        (HeaderChainState::Reading { requests }, Some(Reply::NextHeader(Ok(None)))) => (
            HeaderChainState::Done(Ok(requests)),
            None,
        ),
        (HeaderChainState::Reading { .. }, Some(Reply::NextHeader(Err(failure)))) => (
            HeaderChainState::Done(Err(Error::from_failure(failure))),
            None,
        ),
        (
            HeaderChainState::Classifying { requests },
            Some(Reply::PreChecked(Ok(pre_checked))),
        ) => {
            match pre_checked {
                PreCheckedHeader::AlreadyPresent { .. } => (
                    HeaderChainState::Reading { requests },
                    Some(Request::NextHeader),
                ),
                PreCheckedHeader::MissingParent { header } => (
                    HeaderChainState::Done(Err(Error::MissingParentBlockFromStorage(header))),
                    None,
                ),
                PreCheckedHeader::HeaderWithCache { header, .. } => {
                    let mut requests = requests;
                    requests.push(header.hash());
                    (HeaderChainState::Reading { requests }, Some(Request::NextHeader))
                },
            }
        },
        (HeaderChainState::Classifying { .. }, Some(Reply::PreChecked(Err(failure)))) => (
            HeaderChainState::Done(Err(Error::from_failure(failure))),
            None,
        ),
        (state, _) => (state, None),
    }
}

/// The flow as a function, for the runs of `requests_of` and `state_after`.
pub open spec fn header_chain_flow() -> spec_fn(HeaderChainView, Option<Reply>) -> (
    HeaderChainView,
    Option<Request>,
) {
    |state: HeaderChainView, reply: Option<Reply>| header_chain_step(state, reply)
}

/// Whether a class is that of a new header with a known parent.
pub open spec fn is_fresh() -> spec_fn(PreCheckedHeader) -> bool {
    |class: PreCheckedHeader| class is HeaderWithCache
}

/// The identifier of the header that a class is about.
pub open spec fn hash_of() -> spec_fn(PreCheckedHeader) -> HeaderHash {
    |class: PreCheckedHeader| class.header().hash
}

/// The identifiers of the new headers with a known parent among `classes`, in
/// the order of `classes`.
pub open spec fn fetched(classes: Seq<PreCheckedHeader>) -> Seq<HeaderHash> {
    classes.filter(is_fresh()).map_values(hash_of())
}

/// The header of the first orphan among `classes`, if there is one.
pub open spec fn first_orphan(classes: Seq<PreCheckedHeader>) -> Option<Header>
    decreases classes.len(),
{
    if classes.len() == 0 {
        None
    } else {
        match (first_orphan(classes.drop_last()), classes.last()) {
            (Some(header), _) => Some(header),
            (None, PreCheckedHeader::MissingParent { header }) => Some(header),
            (None, _) => None,
        }
    }
}

/// The blocks to fetch for headers with these classes: none, and the error
/// that names the first orphan, if one of the headers is an orphan; else the
/// new headers among them, in the order they came in.
pub open spec fn block_requests(classes: Seq<PreCheckedHeader>) -> Result<Seq<HeaderHash>, Error> {
    match first_orphan(classes) {
        Some(header) => Err(Error::MissingParentBlockFromStorage(header)),
        None => Ok(fetched(classes)),
    }
}

/// The replies that feed `headers` to the flow one by one, each followed by
/// its class from `classes`.
pub open spec fn header_replies(headers: Seq<Header>, classes: Seq<PreCheckedHeader>) -> Seq<
    Option<Reply>,
>
    recommends
        headers.len() == classes.len(),
    decreases headers.len(),
{
    if headers.len() == 0 || classes.len() == 0 {
        Seq::empty()
    } else {
        header_replies(headers.drop_last(), classes.drop_last()) + seq![
            Some(Reply::NextHeader(Ok(Some(headers.last())))),
            Some(Reply::PreChecked(Ok(classes.last()))),
        ]
    }
}

/// What the flow asks while `headers` are fed to it with `classes`: for the
/// first header, and again after each header that is not an orphan, for the
/// next header; for each header up to the first orphan, that one included,
/// for its class; and nothing after the first orphan.
pub open spec fn header_chain_requests(headers: Seq<Header>, classes: Seq<PreCheckedHeader>)
    -> Seq<Request>
    recommends
        headers.len() == classes.len(),
    decreases headers.len(),
{
    if headers.len() == 0 || classes.len() == 0 {
        seq![Request::NextHeader]
    } else {
        let earlier = header_chain_requests(headers.drop_last(), classes.drop_last());
        if first_orphan(classes.drop_last()) is Some {
            earlier
        } else if classes.last() is MissingParent {
            earlier.push(Request::PreCheckHeader(headers.last()))
        } else {
            earlier.push(Request::PreCheckHeader(headers.last())).push(Request::NextHeader)
        }
    }
}

/// `first_orphan` finds the orphan that no other comes before: it is `None`
/// exactly when no class is that of an orphan, and else it is the header of
/// an orphan with none before it.
pub proof fn lemma_first_orphan_is_first(classes: Seq<PreCheckedHeader>)
    ensures
        first_orphan(classes) is None <==> forall|i: int|
            0 <= i < classes.len() ==> !(#[trigger] classes[i] is MissingParent),
        first_orphan(classes) is Some ==> exists|k: int|
            {
                &&& 0 <= k < classes.len()
                &&& #[trigger] classes[k] == (PreCheckedHeader::MissingParent {
                    header: first_orphan(classes)->0,
                })
                &&& forall|i: int| 0 <= i < k ==> !(#[trigger] classes[i] is MissingParent)
            },
    decreases classes.len(),
{
    if classes.len() > 0 {
        let init = classes.drop_last();
        lemma_first_orphan_is_first(init);
        assert(forall|i: int| 0 <= i < init.len() ==> init[i] == classes[i]);
        match first_orphan(init) {
            Some(header) => {
                let k = choose|k: int|
                    {
                        &&& 0 <= k < init.len()
                        &&& #[trigger] init[k] == (PreCheckedHeader::MissingParent { header })
                        &&& forall|i: int| 0 <= i < k ==> !(#[trigger] init[i] is MissingParent)
                    };
                assert(classes[k] == (PreCheckedHeader::MissingParent { header }));
                assert(forall|i: int| 0 <= i < k ==> !(#[trigger] classes[i] is MissingParent));
            },
            None => {
                let k = classes.len() - 1;
                assert(classes[k] == classes.last());
                if classes.last() is MissingParent {
                    assert(forall|i: int|
                        0 <= i < k ==> !(#[trigger] classes[i] is MissingParent));
                }
            },
        }
    }
}

/// No headers, nothing to fetch.
pub proof fn lemma_fetched_of_none()
    ensures
        fetched(Seq::empty()) == Seq::<HeaderHash>::empty(),
{
    reveal(Seq::filter);
    assert(fetched(Seq::empty()) =~= Seq::<HeaderHash>::empty());
}

/// A class added at the end adds its header's identifier at the end if the
/// header is new with a known parent, and nothing otherwise.
pub proof fn lemma_fetched_push(classes: Seq<PreCheckedHeader>, class: PreCheckedHeader)
    ensures
        fetched(classes.push(class)) == if class is HeaderWithCache {
            fetched(classes).push(class.header().hash)
        } else {
            fetched(classes)
        },
{
    classes.lemma_filter_push(class, is_fresh());
    if class is HeaderWithCache {
        assert(classes.filter(is_fresh()).push(class).map_values(hash_of()) =~= fetched(
            classes,
        ).push(class.header().hash));
    }
}

/// The identifiers to fetch come out in the order the headers came in: what
/// is fetched for headers that came first stands before what is fetched for
/// headers that came later.
pub proof fn lemma_fetched_keeps_order(first: Seq<PreCheckedHeader>, later: Seq<PreCheckedHeader>)
    ensures
        fetched(first + later) == fetched(first) + fetched(later),
{
    Seq::filter_distributes_over_add(first, later, is_fresh());
    assert(fetched(first + later) =~= fetched(first) + fetched(later));
}

/// Once the flow is over, no reply moves it and it asks nothing more.
pub proof fn lemma_header_chain_done_is_final(
    result: Result<Seq<HeaderHash>, Error>,
    replies: Seq<Option<Reply>>,
)
    ensures
        state_after(header_chain_flow(), HeaderChainView::Done(result), replies)
            == HeaderChainView::Done(result),
        requests_of(header_chain_flow(), HeaderChainView::Done(result), replies)
            == Seq::<Request>::empty(),
{
    lemma_settled_flow_stays(header_chain_flow(), HeaderChainView::Done(result), replies);
}

/// Where the flow stands once `headers` were read and classified as
/// `classes`: over with the error that names the first orphan, if there is
/// one; else waiting for the next header, with the new headers gathered so
/// far.
pub proof fn lemma_header_chain_gathers(headers: Seq<Header>, classes: Seq<PreCheckedHeader>)
    requires
        headers.len() == classes.len(),
    ensures
        state_after(
            header_chain_flow(),
            HeaderChainView::Started,
            seq![None] + header_replies(headers, classes),
        ) == match first_orphan(classes) {
            Some(header) => HeaderChainView::Done(
                Err(Error::MissingParentBlockFromStorage(header)),
            ),
            None => HeaderChainView::Reading { requests: fetched(classes) },
        },
        requests_of(
            header_chain_flow(),
            HeaderChainView::Started,
            seq![None] + header_replies(headers, classes),
        ) == header_chain_requests(headers, classes),
    decreases headers.len(),
{
    let flow = header_chain_flow();
    let start = HeaderChainView::Started;
    if headers.len() == 0 {
        let none = Seq::<Option<Reply>>::empty();
        assert(seq![None::<Reply>] + header_replies(headers, classes) =~= seq![None::<Reply>]
            + none);
        lemma_run_unfolds(flow, start, None, none);
        assert(classes =~= Seq::empty());
        lemma_fetched_of_none();
        assert(seq![Request::NextHeader] + Seq::<Request>::empty() =~= seq![Request::NextHeader]);
    } else {
        let earlier = seq![None::<Reply>] + header_replies(
            headers.drop_last(),
            classes.drop_last(),
        );
        let header = Some(Reply::NextHeader(Ok(Some(headers.last()))));
        let class = Some(Reply::PreChecked(Ok(classes.last())));
        let none = Seq::<Option<Reply>>::empty();
        assert(seq![None::<Reply>] + header_replies(headers, classes) =~= earlier + (seq![header]
            + (seq![class] + none)));
        lemma_header_chain_gathers(headers.drop_last(), classes.drop_last());
        let reached = state_after(flow, start, earlier);
        lemma_run_splits(flow, start, earlier, seq![header] + (seq![class] + none));
        lemma_run_unfolds(flow, reached, header, seq![class] + none);
        lemma_run_unfolds(flow, flow(reached, header).0, class, none);
        lemma_fetched_push(classes.drop_last(), classes.last());
        assert(classes.drop_last().push(classes.last()) =~= classes);
        let asked_earlier = header_chain_requests(headers.drop_last(), classes.drop_last());
        let asked_now = requests_of(flow, reached, seq![header] + (seq![class] + none));
        let no_request = Seq::<Request>::empty();
        if first_orphan(classes.drop_last()) is Some {
            lemma_header_chain_done_is_final(
                Err(Error::MissingParentBlockFromStorage(first_orphan(classes.drop_last())->0)),
                seq![header] + (seq![class] + none),
            );
            assert(asked_earlier + no_request =~= asked_earlier);
        } else {
            let classification = Request::PreCheckHeader(headers.last());
            if classes.last() is MissingParent {
                assert(asked_now =~= seq![classification] + (no_request + no_request));
                assert(asked_earlier + (seq![classification] + (no_request + no_request))
                    =~= asked_earlier.push(classification));
            } else {
                assert(asked_now =~= seq![classification] + (seq![Request::NextHeader]
                    + no_request));
                assert(asked_earlier + (seq![classification] + (seq![Request::NextHeader]
                    + no_request)) =~= asked_earlier.push(classification).push(
                    Request::NextHeader,
                ));
            }
        }
    }
}

/// A sequence of headers that is read to its end and classified on the way
/// ends as `block_requests` says: with the identifiers of the new headers, in
/// the order the headers came in, if none of them is an orphan; with the
/// error that names the first orphan otherwise, and then without any of the
/// identifiers gathered before it. Replies that come after the end change
/// nothing.
pub proof fn lemma_header_chain_run(
    headers: Seq<Header>,
    classes: Seq<PreCheckedHeader>,
    rest: Seq<Option<Reply>>,
)
    requires
        headers.len() == classes.len(),
    ensures
        state_after(
            header_chain_flow(),
            HeaderChainView::Started,
            seq![None] + header_replies(headers, classes) + seq![
                Some(Reply::NextHeader(Ok(None))),
            ] + rest,
        ) == HeaderChainView::Done(block_requests(classes)),
        requests_of(
            header_chain_flow(),
            HeaderChainView::Started,
            seq![None] + header_replies(headers, classes) + seq![
                Some(Reply::NextHeader(Ok(None))),
            ] + rest,
        ) == header_chain_requests(headers, classes),
{
    let flow = header_chain_flow();
    let start = HeaderChainView::Started;
    let fed = seq![None::<Reply>] + header_replies(headers, classes);
    let end = Some(Reply::NextHeader(Ok(None::<Header>)));
    assert(fed + seq![end] + rest =~= fed + (seq![end] + rest));
    lemma_header_chain_gathers(headers, classes);
    lemma_run_splits(flow, start, fed, seq![end] + rest);
    let reached = state_after(flow, start, fed);
    lemma_run_unfolds(flow, reached, end, rest);
    lemma_header_chain_done_is_final(block_requests(classes), rest);
    let asked = header_chain_requests(headers, classes);
    let no_request = Seq::<Request>::empty();
    assert(asked + (no_request + no_request) =~= asked);
}

/// The classes of `headers` against `index`, in the order of `headers`.
pub open spec fn classes_of(index: ChainIndex, headers: Seq<Header>) -> Seq<PreCheckedHeader> {
    headers.map_values(|header: Header| classify(index, header))
}

/// Headers that are classified against one index yield the identifiers of
/// those among them that are new and build on a block of the index, in the
/// order they came in, provided each of them is in the index or builds on a
/// block of the index; the first that does neither fails the whole sequence.
pub proof fn lemma_header_chain_over_index(
    index: ChainIndex,
    headers: Seq<Header>,
    rest: Seq<Option<Reply>>,
)
    ensures
        state_after(
            header_chain_flow(),
            HeaderChainView::Started,
            seq![None] + header_replies(headers, classes_of(index, headers)) + seq![
                Some(Reply::NextHeader(Ok(None))),
            ] + rest,
        ) == HeaderChainView::Done(block_requests(classes_of(index, headers))),
        requests_of(
            header_chain_flow(),
            HeaderChainView::Started,
            seq![None] + header_replies(headers, classes_of(index, headers)) + seq![
                Some(Reply::NextHeader(Ok(None))),
            ] + rest,
        ) == header_chain_requests(headers, classes_of(index, headers)),
        first_orphan(classes_of(index, headers)) is None <==> forall|i: int|
            0 <= i < headers.len() ==> index.dom().contains((#[trigger] headers[i]).hash)
                || index.dom().contains(headers[i].parent_hash),
{
    let classes = classes_of(index, headers);
    lemma_header_chain_run(headers, classes, rest);
    lemma_first_orphan_is_first(classes);
    assert forall|i: int| 0 <= i < headers.len() implies (!(#[trigger] classes[i]
        is MissingParent) <==> index.dom().contains(headers[i].hash) || index.dom().contains(
        headers[i].parent_hash,
    )) by {
        assert(classes[i] == classify(index, headers[i]));
    }
    if first_orphan(classes) is None {
        assert forall|i: int| 0 <= i < headers.len() implies index.dom().contains(
            (#[trigger] headers[i]).hash,
        ) || index.dom().contains(headers[i].parent_hash) by {
            assert(!(classes[i] is MissingParent));
        }
    }
}

/// A reply that does not answer the request just made changes nothing: the
/// flow stays where it is and asks nothing. So does the sign to begin once
/// the flow has begun.
pub proof fn lemma_header_chain_ignores_strays(
    before: HeaderChainView,
    earlier: Option<Reply>,
    stray: Option<Reply>,
)
    requires
        header_chain_step(before, earlier).1 is Some,
        stray is Some ==> !header_chain_step(before, earlier).1->0.is_answered_by(stray->0),
    ensures
        header_chain_step(header_chain_step(before, earlier).0, stray) == (
            header_chain_step(before, earlier).0,
            None::<Request>,
        ),
{
}

/// Whatever the replies, the flow only reads: it asks for the next header and
/// for the class of a header, and never for a validation, an application or
/// checkpoints.
pub proof fn lemma_header_chain_only_reads(state: HeaderChainView, replies: Seq<Option<Reply>>)
    ensures
        forall|i: int|
            0 <= i < requests_of(header_chain_flow(), state, replies).len() ==> {
                let request = #[trigger] requests_of(header_chain_flow(), state, replies)[i];
                request is NextHeader || request is PreCheckHeader
            },
{
    let holds = |state: HeaderChainView| true;
    let allowed = |request: Request| request is NextHeader || request is PreCheckHeader;
    lemma_run_keeps(header_chain_flow(), holds, allowed, state, replies);
}

} // verus!
