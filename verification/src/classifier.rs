//! Classifying a header against the chain index.

use crate::chain::{Header, HeaderHash, Ref};
use vstd::prelude::*;

verus! {

/// Where a header stands with respect to the chain index.
#[derive(Clone, Copy, Debug, PartialEq, Eq)]
pub enum PreCheckedHeader {
    /// The index already holds the header.
    AlreadyPresent { header: Header },
    /// The index holds neither the header nor the parent it names.
    MissingParent { header: Header },
    /// The header is new and its parent is admitted: `parent_ref` is the
    /// handle to validate against.
    HeaderWithCache { header: Header, parent_ref: Ref },
}

impl PreCheckedHeader {
    /// The header that was classified.
    pub open spec fn header(self) -> Header {
        match self {
            PreCheckedHeader::AlreadyPresent { header } => header,
            PreCheckedHeader::MissingParent { header } => header,
            PreCheckedHeader::HeaderWithCache { header, .. } => header,
        }
    }
}

/// The chain index as the classifier sees it: the handle of each admitted
/// block, by the block's identifier.
pub type ChainIndex = Map<HeaderHash, Ref>;

/// What the index answers when asked for `hash`.
pub open spec fn lookup(index: ChainIndex, hash: HeaderHash) -> Option<Ref> {
    if index.dom().contains(hash) {
        Some(index[hash])
    } else {
        None
    }
}

/// The class of `header`, given what the index answered for the header itself
/// (`own`) and for its parent (`parent`).
pub open spec fn classification(header: Header, own: Option<Ref>, parent: Option<Ref>)
    -> PreCheckedHeader {
    if own is Some {
        PreCheckedHeader::AlreadyPresent { header }
    } else {
        match parent {
            Some(parent_ref) => PreCheckedHeader::HeaderWithCache { header, parent_ref },
            None => PreCheckedHeader::MissingParent { header },
        }
    }
}

/// The class of `header` against `index`.
pub open spec fn classify(index: ChainIndex, header: Header) -> PreCheckedHeader {
    classification(header, lookup(index, header.hash), lookup(index, header.parent_hash))
}

/// Classifies `header` from the two answers of the index: `own` for the
/// header's identifier, `parent` for the one of its parent. A header that the
/// index holds is present whatever its parent; the parent's answer counts only
/// for a new header.
pub fn pre_check_header(header: Header, own: Option<Ref>, parent: Option<Ref>) -> (pre_checked:
    PreCheckedHeader)
    ensures
        pre_checked == classification(header, own, parent),
{
    if own.is_some() {
        PreCheckedHeader::AlreadyPresent { header }
    } else {
        match parent {
            Some(parent_ref) => PreCheckedHeader::HeaderWithCache { header, parent_ref },
            None => PreCheckedHeader::MissingParent { header },
        }
    }
}

/// Every header falls into exactly one class against every index, and the
/// index alone says which: present if the index holds the header; else ready
/// for validation, with the parent's own handle, if it holds the parent; else
/// an orphan. The class always carries the header that was asked about.
pub proof fn lemma_classification_is_total(index: ChainIndex, header: Header)
    ensures
        classify(index, header).header() == header,
        index.dom().contains(header.hash) <==> classify(index, header)
            is AlreadyPresent,
        !index.dom().contains(header.hash) && index.dom().contains(header.parent_hash)
            <==> classify(index, header) == (PreCheckedHeader::HeaderWithCache {
            header,
            parent_ref: index[header.parent_hash],
        }),
        !index.dom().contains(header.hash) && !index.dom().contains(header.parent_hash)
            <==> classify(index, header) is MissingParent,
{
}

/// Classifying reads the index and nothing else: on two indexes that answer
/// alike for the header and for its parent, the class is the same.
pub proof fn lemma_classification_reads_two_entries(
    before: ChainIndex,
    after: ChainIndex,
    header: Header,
)
    requires
        lookup(before, header.hash) == lookup(after, header.hash),
        lookup(before, header.parent_hash) == lookup(after, header.parent_hash),
    ensures
        classify(before, header) == classify(after, header),
{
}

} // verus!
