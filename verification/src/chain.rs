//! The data that travels through the flows.

use vstd::prelude::*;

verus! {

/// The content identifier of a header, and of the block it heads.
#[derive(Clone, Copy, Debug, PartialEq, Eq, Hash)]
pub struct HeaderHash {
    pub bytes: [u8; 32],
}

/// What a flow reads of a block's header: its own identifier and the one it
/// names as its parent.
#[derive(Clone, Copy, Debug, PartialEq, Eq, Hash)]
pub struct Header {
    pub hash: HeaderHash,
    pub parent_hash: HeaderHash,
}

impl Header {
    /// The identifier of this header.
    pub fn hash(&self) -> (hash: HeaderHash)
        ensures
            hash == self.hash,
    {
        self.hash
    }

    /// The identifier of the header this one builds on.
    pub fn block_parent_hash(&self) -> (hash: HeaderHash)
        ensures
            hash == self.parent_hash,
    {
        self.parent_hash
    }
}

/// A header with the serialized body it commits to.
#[derive(Clone, Debug, PartialEq, Eq)]
pub struct Block {
    pub header: Header,
    pub contents: Vec<u8>,
}

impl Block {
    /// The header of this block.
    pub fn header(&self) -> (header: Header)
        ensures
            header == self.header,
    {
        self.header
    }
}

/// A handle to a block that the chain index has admitted. Two handles are
/// equal exactly when they denote the same block.
#[derive(Clone, Copy, Debug, PartialEq, Eq, Hash)]
pub struct Ref {
    pub hash: HeaderHash,
}

/// A tracked chain tip; it scopes the search for checkpoints to one chain.
#[derive(Clone, Copy, Debug, PartialEq, Eq, Hash)]
pub struct Branch {
    pub tip: Ref,
}

/// The validator's word that a header passed the consensus rules against a
/// parent. The applier takes nothing else. A flow never makes one: it hands on
/// the one it was given. A token cannot be copied, so it is spent on one
/// application.
#[derive(Debug, PartialEq, Eq)]
pub struct PostCheckedHeader {
    header: Header,
    parent: Ref,
}

impl PostCheckedHeader {
    /// The token for `header`, validated against `parent`. For the validator
    /// to call once the rules have passed.
    pub fn new(header: Header, parent: Ref) -> (token: PostCheckedHeader)
        ensures
            token.header() == header,
            token.parent() == parent,
    {
        PostCheckedHeader { header, parent }
    }

    /// The header that was validated.
    pub closed spec fn validated(&self) -> Header {
        self.header
    }

    /// The parent it was validated against.
    pub closed spec fn validated_against(&self) -> Ref {
        self.parent
    }

    /// The header that was validated.
    #[verifier::when_used_as_spec(validated)]
    pub fn header(&self) -> (header: Header)
        ensures
            header == self.validated(),
    {
        self.header
    }

    /// The parent it was validated against.
    #[verifier::when_used_as_spec(validated_against)]
    pub fn parent(&self) -> (parent: Ref)
        ensures
            parent == self.validated_against(),
    {
        self.parent
    }
}

} // verus!
