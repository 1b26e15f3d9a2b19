use block_ingestion::{
    process_leadership_block, Block, Error, Failure, Header, HeaderHash, LeadershipState,
    PostCheckedHeader, PreCheckedHeader, Ref, Reply, Request,
};

fn hash(n: u8) -> HeaderHash {
    HeaderHash { bytes: [n; 32] }
}

fn block(own: u8, parent: u8) -> Block {
    Block { header: Header { hash: hash(own), parent_hash: hash(parent) }, contents: vec![own, 1, 2] }
}

fn handle(n: u8) -> Ref {
    Ref { hash: hash(n) }
}

#[test]
fn minted_block_is_validated_then_applied() {
    let b = block(5, 4);
    let start = LeadershipState::Minted { block: b.clone(), parent: handle(4) };

    let (state, request) = process_leadership_block(start, None);
    assert_eq!(state, LeadershipState::Validating { block: b.clone() });
    assert_eq!(request, Some(Request::PostCheckHeader { header: b.header, parent: handle(4) }));

    let token = PostCheckedHeader::new(b.header, handle(4));
    let (state, request) = process_leadership_block(state, Some(Reply::PostChecked(Ok(token))));
    assert_eq!(state, LeadershipState::Applying);
    let token = PostCheckedHeader::new(b.header, handle(4));
    assert_eq!(request, Some(Request::ApplyBlock { post_checked: token, block: b }));

    let (state, request) = process_leadership_block(state, Some(Reply::Applied(Ok(handle(5)))));
    assert_eq!(state, LeadershipState::Done(Ok(handle(5))));
    assert_eq!(request, None);
}

#[test]
fn minted_block_that_fails_validation_is_not_applied() {
    let b = block(5, 4);
    let start = LeadershipState::Minted { block: b, parent: handle(4) };
    let (state, _) = process_leadership_block(start, None);
    let rejected = Failure::Validation("not the slot leader".to_string());
    let (state, request) = process_leadership_block(state, Some(Reply::PostChecked(Err(rejected))));
    assert_eq!(
        state,
        LeadershipState::Done(Err(Error::Validation("not the slot leader".to_string())))
    );
    assert_eq!(request, None);
}

#[test]
fn minted_block_that_fails_to_apply_ends_with_the_apply_error() {
    let b = block(5, 4);
    let start = LeadershipState::Minted { block: b.clone(), parent: handle(4) };
    let (state, _) = process_leadership_block(start, None);
    let token = PostCheckedHeader::new(b.header, handle(4));
    let (state, _) = process_leadership_block(state, Some(Reply::PostChecked(Ok(token))));
    let failed = Failure::Apply("disk full".to_string());
    let (state, request) = process_leadership_block(state, Some(Reply::Applied(Err(failed))));
    assert_eq!(state, LeadershipState::Done(Err(Error::Apply("disk full".to_string()))));
    assert_eq!(request, None);
}

#[test]
fn leadership_flow_never_asks_for_a_class() {
    let b = block(5, 4);
    let replies = vec![
        None,
        Some(Reply::PreChecked(Ok(PreCheckedHeader::MissingParent { header: b.header }))),
        Some(Reply::PostChecked(Ok(PostCheckedHeader::new(b.header, handle(4))))),
        Some(Reply::PreChecked(Ok(PreCheckedHeader::MissingParent { header: b.header }))),
        Some(Reply::Applied(Ok(handle(5)))),
    ];
    let mut state = LeadershipState::Minted { block: b, parent: handle(4) };
    for reply in replies {
        let (next, request) = process_leadership_block(state, reply);
        assert!(!matches!(request, Some(Request::PreCheckHeader(_))));
        assert!(!matches!(
            next,
            LeadershipState::Done(Err(Error::MissingParentBlockFromStorage(_)))
        ));
        state = next;
    }
    assert_eq!(state, LeadershipState::Done(Ok(handle(5))));
}

#[test]
fn leadership_flow_ignores_a_reply_it_did_not_ask_for() {
    let b = block(5, 4);
    let start = LeadershipState::Minted { block: b.clone(), parent: handle(4) };
    let (state, request) = process_leadership_block(start, Some(Reply::Applied(Ok(handle(5)))));
    assert_eq!(state, LeadershipState::Minted { block: b.clone(), parent: handle(4) });
    assert_eq!(request, None);

    let (state, _) = process_leadership_block(state, None);
    let (state, request) = process_leadership_block(state, None);
    assert_eq!(state, LeadershipState::Validating { block: b });
    assert_eq!(request, None);
}

#[test]
fn finished_leadership_flow_stays_finished() {
    let done = LeadershipState::Done(Ok(handle(5)));
    let (state, request) = process_leadership_block(done, Some(Reply::Applied(Ok(handle(6)))));
    assert_eq!(state, LeadershipState::Done(Ok(handle(5))));
    assert_eq!(request, None);
}

#[test]
fn token_remembers_what_was_validated() {
    let b = block(5, 4);
    let token = PostCheckedHeader::new(b.header, handle(4));
    assert_eq!(token.header(), b.header);
    assert_eq!(token.parent(), handle(4));
    assert_eq!(b.header(), b.header);
}
