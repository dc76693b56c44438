//! Proposed mutations, as a peer sees them.
//!
//! One mutation reaches different peers in different forms: the peer that
//! keeps the record sees the record, the peer that keeps the entry sees the
//! entry, the peer that keeps what an edge starts from sees the edge, and
//! the peer that keeps the author's history sees the step.

use crate::hash::{LinkableHash, Principal, RevisionId};
use crate::integrity::{EntryTypes, LinkTypes};
use crate::record::{Create, CreateLink, Delete, DeleteLink, EntryCreationAction, Update};
use vstd::prelude::*;

verus! {

/// A mutation as the keeper of the entry sees it.
#[derive(Clone, Debug, PartialEq, Eq)]
pub enum OpEntry {
    /// An entry of this library is created.
    CreateEntry { app_entry: EntryTypes, action: Create },
    /// An entry of this library is put in the place of an earlier one.
    UpdateEntry { app_entry: EntryTypes, action: Update },
    /// Anything else: an agent key, a capability claim or grant.
    Other,
}

/// An update as the keeper of the updated entry sees it.
#[derive(Clone, Debug, PartialEq, Eq)]
pub enum OpUpdate {
    /// An entry of this library is put in the place of another one.
    Entry {
        original_action: EntryCreationAction,
        original_app_entry: EntryTypes,
        app_entry: EntryTypes,
        action: Update,
    },
    /// Anything else: a private entry, an agent key, a capability claim or
    /// grant.
    Other,
}

/// A removal as the keeper of the removed entry sees it.
#[derive(Clone, Debug, PartialEq, Eq)]
pub enum OpDelete {
    /// An entry of this library is marked as removed.
    Entry { original_action: EntryCreationAction, original_app_entry: EntryTypes, action: Delete },
    /// Anything else: a private entry, an agent key, a capability claim or
    /// grant.
    Other,
}

/// A mutation as the keeper of the record sees it.
#[derive(Clone, Debug, PartialEq, Eq)]
pub enum OpRecord {
    /// An entry of this library is created.
    CreateEntry { app_entry: EntryTypes, action: Create },
    /// An entry of this library is put in the place of the one that the
    /// record `original_action_hash` carries.
    UpdateEntry { original_action_hash: RevisionId, app_entry: EntryTypes, action: Update },
    /// The entry that the record `original_action_hash` carries is marked as
    /// removed.
    DeleteEntry { original_action_hash: RevisionId, action: Delete },
    /// An edge of this library is made.
    CreateLink {
        base_address: LinkableHash,
        target_address: LinkableHash,
        tag: Vec<u8>,
        link_type: LinkTypes,
        action: CreateLink,
    },
    /// The edge that the record `original_action_hash` made is marked as
    /// removed.
    DeleteLink { original_action_hash: RevisionId, base_address: LinkableHash, action: DeleteLink },
    /// Anything else: a private entry, an agent key, a capability claim or
    /// grant, a step of the life of a chain.
    Other,
}

/// A step as the keeper of its author's history sees it.
#[derive(Clone, Debug, PartialEq, Eq)]
pub enum OpActivity {
    /// An agent is introduced.
    CreateAgent { agent: Principal, action: Create },
    /// Any other step.
    Other,
}

/// A proposed mutation.
#[derive(Clone, Debug, PartialEq, Eq)]
pub enum FlatOp {
    StoreEntry(OpEntry),
    RegisterUpdate(OpUpdate),
    RegisterDelete(OpDelete),
    RegisterCreateLink {
        link_type: LinkTypes,
        base_address: LinkableHash,
        target_address: LinkableHash,
        tag: Vec<u8>,
        action: CreateLink,
    },
    RegisterDeleteLink {
        link_type: LinkTypes,
        base_address: LinkableHash,
        target_address: LinkableHash,
        tag: Vec<u8>,
        original_action: CreateLink,
        action: DeleteLink,
    },
    StoreRecord(OpRecord),
    RegisterAgentActivity(OpActivity),
}

} // verus!
