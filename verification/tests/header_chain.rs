use block_ingestion::{
    pre_check_header, process_chain_headers_into_block_request, Error, Failure, Header,
    HeaderChainState, HeaderHash, PreCheckedHeader, Ref, Reply, Request,
};
use std::collections::HashMap;

fn hash(n: u8) -> HeaderHash {
    HeaderHash { bytes: [n; 32] }
}

fn header(own: u8, parent: u8) -> Header {
    Header { hash: hash(own), parent_hash: hash(parent) }
}

fn handle(n: u8) -> Ref {
    Ref { hash: hash(n) }
}

fn index(hashes: &[u8]) -> HashMap<HeaderHash, Ref> {
    hashes.iter().map(|n| (hash(*n), handle(*n))).collect()
}

/// Feeds `headers` to the flow, classifying each against `index`; returns how
/// the flow ended and the headers it had classified.
fn run(
    index: &HashMap<HeaderHash, Ref>,
    headers: Vec<Header>,
) -> (Result<Vec<HeaderHash>, Error>, Vec<Header>) {
    let mut pending = headers.into_iter();
    let mut classified = Vec::new();
    let mut state = HeaderChainState::Started;
    let mut reply = None;
    loop {
        let (next, request) = process_chain_headers_into_block_request(state, reply);
        match (next, request) {
            (HeaderChainState::Done(result), None) => return (result, classified),
            (next, Some(Request::NextHeader)) => {
                reply = Some(Reply::NextHeader(Ok(pending.next())));
                state = next;
            }
            (next, Some(Request::PreCheckHeader(header))) => {
                classified.push(header);
                reply = Some(Reply::PreChecked(Ok(pre_check_header(
                    header,
                    index.get(&header.hash).copied(),
                    index.get(&header.parent_hash).copied(),
                ))));
                state = next;
            }
            (next, request) => panic!("the flow asked for {:?} in {:?}", request, next),
        }
    }
}

#[test]
fn present_header_is_skipped_and_order_is_kept() {
    let known = index(&[1, 2]);
    let headers = vec![header(2, 1), header(3, 2), header(4, 1)];
    let (result, classified) = run(&known, headers.clone());
    assert_eq!(result, Ok(vec![hash(3), hash(4)]));
    assert_eq!(classified, headers);
}

#[test]
fn orphan_aborts_and_discards_what_was_gathered() {
    let known = index(&[1]);
    let headers = vec![header(2, 1), header(9, 8), header(3, 1)];
    let (result, classified) = run(&known, headers);
    assert_eq!(result, Err(Error::MissingParentBlockFromStorage(header(9, 8))));
    assert_eq!(classified, vec![header(2, 1), header(9, 8)]);
}

#[test]
fn child_of_a_header_not_yet_applied_is_an_orphan() {
    let known = index(&[1]);
    let (result, _) = run(&known, vec![header(2, 1), header(3, 2)]);
    assert_eq!(result, Err(Error::MissingParentBlockFromStorage(header(3, 2))));
}

#[test]
fn first_of_two_orphans_is_named() {
    let known = index(&[1]);
    let (result, _) = run(&known, vec![header(7, 6), header(9, 8)]);
    assert_eq!(result, Err(Error::MissingParentBlockFromStorage(header(7, 6))));
}

#[test]
fn no_headers_give_no_requests() {
    let (result, classified) = run(&index(&[1]), vec![]);
    assert_eq!(result, Ok(vec![]));
    assert_eq!(classified, vec![]);
}

#[test]
fn only_present_headers_give_no_requests() {
    let (result, _) = run(&index(&[1, 2, 3]), vec![header(2, 1), header(3, 2)]);
    assert_eq!(result, Ok(vec![]));
}

#[test]
fn same_header_twice_is_requested_twice() {
    let (result, _) = run(&index(&[1]), vec![header(2, 1), header(2, 1)]);
    assert_eq!(result, Ok(vec![hash(2), hash(2)]));
}

#[test]
fn broken_header_sequence_fails_the_flow() {
    let (state, request) = process_chain_headers_into_block_request(HeaderChainState::Started, None);
    assert_eq!(state, HeaderChainState::Reading { requests: vec![] });
    assert_eq!(request, Some(Request::NextHeader));
    let broken = Failure::Infrastructure("peer hung up".to_string());
    let (state, request) =
        process_chain_headers_into_block_request(state, Some(Reply::NextHeader(Err(broken))));
    assert_eq!(
        state,
        HeaderChainState::Done(Err(Error::Infrastructure("peer hung up".to_string())))
    );
    assert_eq!(request, None);
}

#[test]
fn unreadable_index_fails_the_header_sequence() {
    let waiting = HeaderChainState::Classifying { requests: vec![hash(2)] };
    let down = Failure::Infrastructure("index unreachable".to_string());
    let (state, request) =
        process_chain_headers_into_block_request(waiting, Some(Reply::PreChecked(Err(down))));
    assert_eq!(
        state,
        HeaderChainState::Done(Err(Error::Infrastructure("index unreachable".to_string())))
    );
    assert_eq!(request, None);
}

#[test]
fn header_chain_steps_name_each_request() {
    let reading = HeaderChainState::Reading { requests: vec![hash(2)] };
    let (state, request) = process_chain_headers_into_block_request(
        reading,
        Some(Reply::NextHeader(Ok(Some(header(3, 1))))),
    );
    assert_eq!(state, HeaderChainState::Classifying { requests: vec![hash(2)] });
    assert_eq!(request, Some(Request::PreCheckHeader(header(3, 1))));

    let fresh = PreCheckedHeader::HeaderWithCache { header: header(3, 1), parent_ref: handle(1) };
    let (state, request) =
        process_chain_headers_into_block_request(state, Some(Reply::PreChecked(Ok(fresh))));
    assert_eq!(state, HeaderChainState::Reading { requests: vec![hash(2), hash(3)] });
    assert_eq!(request, Some(Request::NextHeader));

    let (state, request) =
        process_chain_headers_into_block_request(state, Some(Reply::NextHeader(Ok(None))));
    assert_eq!(state, HeaderChainState::Done(Ok(vec![hash(2), hash(3)])));
    assert_eq!(request, None);
}

#[test]
fn header_chain_flow_ignores_a_reply_it_did_not_ask_for() {
    let reading = HeaderChainState::Reading { requests: vec![hash(2)] };
    let present = PreCheckedHeader::AlreadyPresent { header: header(2, 1) };
    let (state, request) =
        process_chain_headers_into_block_request(reading, Some(Reply::PreChecked(Ok(present))));
    assert_eq!(state, HeaderChainState::Reading { requests: vec![hash(2)] });
    assert_eq!(request, None);
}
