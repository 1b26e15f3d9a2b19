use block_ingestion::{
    pre_check_header, process_block_announcement, AnnouncementState, Branch, Error, Failure,
    Header, HeaderHash, MessageBox, NetworkMsg, NodeId, PreCheckedHeader, Ref, Reply, Request,
    SendOutcome,
};
use futures::sync::mpsc::{channel, Receiver};
use futures::Stream;
use std::collections::HashMap;

fn hash(n: u8) -> HeaderHash {
    HeaderHash { bytes: [n; 32] }
}

fn header(own: u8, parent: u8) -> Header {
    Header { hash: hash(own), parent_hash: hash(parent) }
}

fn handle(n: u8) -> Ref {
    Ref { hash: hash(n) }
}

fn peer() -> NodeId {
    NodeId { id: 42 }
}

fn tip() -> Branch {
    Branch { tip: handle(1) }
}

/// A chain index in memory that plays the collaborators and logs the requests.
struct Chain {
    index: HashMap<HeaderHash, Ref>,
    checkpoints: Result<Vec<HeaderHash>, Failure>,
    asked: Vec<Request>,
}

impl Chain {
    fn holding(hashes: &[u8], checkpoints: &[u8]) -> Chain {
        Chain {
            index: hashes.iter().map(|n| (hash(*n), handle(*n))).collect(),
            checkpoints: Ok(checkpoints.iter().map(|n| hash(*n)).collect()),
            asked: Vec::new(),
        }
    }

    fn answer(&mut self, request: Request) -> Reply {
        let reply = match request {
            Request::PreCheckHeader(header) => Reply::PreChecked(Ok(pre_check_header(
                header,
                self.index.get(&header.hash).copied(),
                self.index.get(&header.parent_hash).copied(),
            ))),
            Request::GetCheckpoints(_) => Reply::Checkpoints(self.checkpoints.clone()),
            ref other => panic!("the flow for an announcement asked for {:?}", other),
        };
        self.asked.push(request);
        reply
    }
}

fn run(
    chain: &mut Chain,
    announced: Header,
    outbox: &mut MessageBox,
) -> (Result<(), Error>, Vec<SendOutcome>) {
    let mut state =
        AnnouncementState::Announced { branch: tip(), header: announced, node_id: peer() };
    let mut reply = None;
    let mut outcomes = Vec::new();
    loop {
        let (next, request, outcome) = process_block_announcement(state, reply, outbox);
        outcomes.extend(outcome);
        match (next, request) {
            (AnnouncementState::Done(result), None) => return (result, outcomes),
            (next, Some(request)) => {
                reply = Some(chain.answer(request));
                state = next;
            }
            (next, None) => panic!("the flow stalled in {:?}", next),
        }
    }
}

fn outbox(buffer: usize) -> (MessageBox, Receiver<NetworkMsg>) {
    let (sender, receiver) = channel(buffer);
    (MessageBox::new(sender), receiver)
}

fn received(outbox: MessageBox, receiver: Receiver<NetworkMsg>) -> Vec<NetworkMsg> {
    drop(outbox);
    receiver.wait().map(|message| message.unwrap()).collect()
}

#[test]
fn announced_duplicate_sends_nothing() {
    let mut chain = Chain::holding(&[1, 2], &[1]);
    let (mut messages, receiver) = outbox(8);
    let (result, outcomes) = run(&mut chain, header(2, 1), &mut messages);
    assert_eq!(result, Ok(()));
    assert_eq!(outcomes, vec![]);
    assert_eq!(chain.asked, vec![Request::PreCheckHeader(header(2, 1))]);
    assert_eq!(received(messages, receiver), vec![]);
}

#[test]
fn announced_orphan_pulls_headers_from_the_checkpoints() {
    let mut chain = Chain::holding(&[1, 2], &[2, 1]);
    let (mut messages, receiver) = outbox(8);
    let (result, outcomes) = run(&mut chain, header(9, 8), &mut messages);
    assert_eq!(result, Ok(()));
    assert_eq!(outcomes, vec![SendOutcome::Delivered]);
    assert_eq!(
        chain.asked,
        vec![Request::PreCheckHeader(header(9, 8)), Request::GetCheckpoints(tip())]
    );
    assert_eq!(
        received(messages, receiver),
        vec![NetworkMsg::PullHeaders { node_id: peer(), from: vec![hash(2), hash(1)], to: hash(9) }]
    );
}

#[test]
fn announced_child_of_known_block_fetches_the_block() {
    let mut chain = Chain::holding(&[1, 2], &[2, 1]);
    let (mut messages, receiver) = outbox(8);
    let (result, outcomes) = run(&mut chain, header(3, 2), &mut messages);
    assert_eq!(result, Ok(()));
    assert_eq!(outcomes, vec![SendOutcome::Delivered]);
    assert_eq!(chain.asked, vec![Request::PreCheckHeader(header(3, 2))]);
    assert_eq!(received(messages, receiver), vec![NetworkMsg::GetNextBlock(peer(), hash(3))]);
}

#[test]
fn announcement_succeeds_when_the_channel_is_full() {
    let mut chain = Chain::holding(&[1, 2], &[2, 1]);
    let (mut messages, receiver) = outbox(0);

    let (result, outcomes) = run(&mut chain, header(3, 2), &mut messages);
    assert_eq!(result, Ok(()));
    assert_eq!(outcomes, vec![SendOutcome::Delivered]);

    let (result, outcomes) = run(&mut chain, header(4, 2), &mut messages);
    assert_eq!(result, Ok(()));
    assert_eq!(outcomes, vec![SendOutcome::Full]);

    let (result, outcomes) = run(&mut chain, header(9, 8), &mut messages);
    assert_eq!(result, Ok(()));
    assert_eq!(outcomes, vec![SendOutcome::Full]);

    assert_eq!(received(messages, receiver), vec![NetworkMsg::GetNextBlock(peer(), hash(3))]);
}

#[test]
fn announcement_succeeds_when_the_receiver_is_gone() {
    let mut chain = Chain::holding(&[1, 2], &[2, 1]);
    let (mut messages, receiver) = outbox(8);
    drop(receiver);
    let (result, outcomes) = run(&mut chain, header(3, 2), &mut messages);
    assert_eq!(result, Ok(()));
    assert_eq!(outcomes, vec![SendOutcome::Disconnected]);
}

#[test]
fn failed_checkpoints_fail_the_announcement() {
    let mut chain = Chain::holding(&[1, 2], &[]);
    chain.checkpoints = Err(Failure::Infrastructure("branch is gone".to_string()));
    let (mut messages, receiver) = outbox(8);
    let (result, outcomes) = run(&mut chain, header(9, 8), &mut messages);
    assert_eq!(result, Err(Error::Infrastructure("branch is gone".to_string())));
    assert_eq!(outcomes, vec![]);
    assert_eq!(received(messages, receiver), vec![]);
}

#[test]
fn unreadable_index_fails_the_announcement() {
    let (mut messages, receiver) = outbox(8);
    let start = AnnouncementState::Announced { branch: tip(), header: header(3, 2), node_id: peer() };
    let (state, request, outcome) = process_block_announcement(start, None, &mut messages);
    assert_eq!(state, AnnouncementState::Classifying { branch: tip(), node_id: peer() });
    assert_eq!(request, Some(Request::PreCheckHeader(header(3, 2))));
    assert_eq!(outcome, None);
    let down = Failure::Infrastructure("index unreachable".to_string());
    let (state, request, outcome) =
        process_block_announcement(state, Some(Reply::PreChecked(Err(down))), &mut messages);
    assert_eq!(
        state,
        AnnouncementState::Done(Err(Error::Infrastructure("index unreachable".to_string())))
    );
    assert_eq!(request, None);
    assert_eq!(outcome, None);
    assert_eq!(received(messages, receiver), vec![]);
}

#[test]
fn orphan_announcement_waits_for_the_checkpoints() {
    let (mut messages, receiver) = outbox(8);
    let waiting = AnnouncementState::Classifying { branch: tip(), node_id: peer() };
    let orphan = PreCheckedHeader::MissingParent { header: header(9, 8) };
    let (state, request, outcome) =
        process_block_announcement(waiting, Some(Reply::PreChecked(Ok(orphan))), &mut messages);
    assert_eq!(state, AnnouncementState::Anchoring { node_id: peer(), to: hash(9) });
    assert_eq!(request, Some(Request::GetCheckpoints(tip())));
    assert_eq!(outcome, None);

    let (state, request, outcome) = process_block_announcement(state, None, &mut messages);
    assert_eq!(state, AnnouncementState::Anchoring { node_id: peer(), to: hash(9) });
    assert_eq!(request, None);
    assert_eq!(outcome, None);

    let (state, request, outcome) = process_block_announcement(
        state,
        Some(Reply::Checkpoints(Ok(vec![hash(5), hash(4)]))),
        &mut messages,
    );
    assert_eq!(state, AnnouncementState::Done(Ok(())));
    assert_eq!(request, None);
    assert_eq!(outcome, Some(SendOutcome::Delivered));
    assert_eq!(
        received(messages, receiver),
        vec![NetworkMsg::PullHeaders { node_id: peer(), from: vec![hash(5), hash(4)], to: hash(9) }]
    );
}

#[test]
fn finished_announcement_sends_nothing_more() {
    let (mut messages, receiver) = outbox(8);
    let fresh = PreCheckedHeader::HeaderWithCache { header: header(3, 2), parent_ref: handle(2) };
    let (state, request, outcome) = process_block_announcement(
        AnnouncementState::Done(Ok(())),
        Some(Reply::PreChecked(Ok(fresh))),
        &mut messages,
    );
    assert_eq!(state, AnnouncementState::Done(Ok(())));
    assert_eq!(request, None);
    assert_eq!(outcome, None);
    assert_eq!(received(messages, receiver), vec![]);
}
