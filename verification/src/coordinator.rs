//! Reading the catalog, and planning what to write to it.
//!
//! Everything here reads the store and writes nothing. What has to be
//! written comes back as a plan: the edges that go with a new entry, the
//! edges that go when an entry is removed.

pub mod all_agents;
pub mod all_curators;
pub mod all_developer_collectives;
pub mod contributor_permission;
pub mod curator;
pub mod curator_to_developer_collectives;
pub mod curator_to_tools;
pub mod developer_collective;
pub mod revisions;
pub mod tool;

use crate::hash::LinkableHash;
use crate::integrity::LinkTypes;
use vstd::prelude::*;

verus! {

/// An edge that is to be made.
#[derive(Clone, Debug, PartialEq, Eq)]
pub struct CreateLinkInput {
    pub base_address: LinkableHash,
    pub target_address: LinkableHash,
    pub link_type: LinkTypes,
    pub tag: Vec<u8>,
}

impl CreateLinkInput {
    /// Whether this is the edge of the kind `link_type` from `base_address`
    /// to `target_address` with the tag `tag`.
    pub open spec fn connects(
        self,
        base_address: LinkableHash,
        target_address: LinkableHash,
        link_type: LinkTypes,
        tag: Seq<u8>,
    ) -> bool {
        &&& self.base_address == base_address
        &&& self.target_address == target_address
        &&& self.link_type == link_type
        &&& self.tag@ == tag
    }
}

} // verus!
