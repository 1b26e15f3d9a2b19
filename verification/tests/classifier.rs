use block_ingestion::{pre_check_header, Header, HeaderHash, PreCheckedHeader, Ref};

fn hash(n: u8) -> HeaderHash {
    HeaderHash { bytes: [n; 32] }
}

fn header(own: u8, parent: u8) -> Header {
    Header { hash: hash(own), parent_hash: hash(parent) }
}

fn handle(n: u8) -> Ref {
    Ref { hash: hash(n) }
}

#[test]
fn header_in_the_index_is_already_present() {
    let h = header(2, 1);
    assert_eq!(
        pre_check_header(h, Some(handle(2)), Some(handle(1))),
        PreCheckedHeader::AlreadyPresent { header: h }
    );
}

#[test]
fn header_in_the_index_is_present_even_without_its_parent() {
    let h = header(2, 1);
    assert_eq!(
        pre_check_header(h, Some(handle(2)), None),
        PreCheckedHeader::AlreadyPresent { header: h }
    );
}

#[test]
fn new_header_with_known_parent_carries_the_parent_handle() {
    let h = header(2, 1);
    assert_eq!(
        pre_check_header(h, None, Some(handle(1))),
        PreCheckedHeader::HeaderWithCache { header: h, parent_ref: handle(1) }
    );
}

#[test]
fn new_header_with_unknown_parent_is_an_orphan() {
    let h = header(2, 1);
    assert_eq!(pre_check_header(h, None, None), PreCheckedHeader::MissingParent { header: h });
}

#[test]
fn every_header_gets_exactly_one_class() {
    let h = header(7, 6);
    for own in [None, Some(handle(7))] {
        for parent in [None, Some(handle(6))] {
            let class = pre_check_header(h, own, parent);
            let present = matches!(class, PreCheckedHeader::AlreadyPresent { .. });
            let orphan = matches!(class, PreCheckedHeader::MissingParent { .. });
            let fresh = matches!(class, PreCheckedHeader::HeaderWithCache { .. });
            assert_eq!(present as u8 + orphan as u8 + fresh as u8, 1);
            assert_eq!(present, own.is_some());
            assert_eq!(fresh, own.is_none() && parent.is_some());
            assert_eq!(orphan, own.is_none() && parent.is_none());
        }
    }
}

#[test]
fn header_accessors_return_the_fields() {
    let h = header(9, 8);
    assert_eq!(h.hash(), hash(9));
    assert_eq!(h.block_parent_hash(), hash(8));
}
