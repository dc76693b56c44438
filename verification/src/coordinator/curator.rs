//! Reading curators, and planning what to write for them.

use crate::coordinator::revisions::{
    get_all_deletes, get_all_revisions, get_latest, get_oldest_delete, get_original,
    spec_all_deletes, spec_all_revisions, spec_latest, spec_oldest_delete,
};
use crate::coordinator::CreateLinkInput;
use crate::hash::{LinkableHash, RevisionId};
use crate::integrity::curator::Curator;
use crate::integrity::LinkTypes;
use crate::outcome::{GuestError, ValidationError};
use crate::record::Record;
use crate::store::{
    is_list, is_list_or_failure, is_record, is_record_or_failure, lookup, ContentStore,
};
use vstd::prelude::*;

verus! {

/// The latest revision of a curator.
pub fn get_latest_curator<'a>(
    store: &'a ContentStore,
    original_curator_hash: &RevisionId,
) -> (latest: Result<Option<&'a Record>, ValidationError>)
    ensures
        is_record_or_failure(
            latest,
            spec_latest(store@, *original_curator_hash, LinkTypes::CuratorUpdates),
        ),
{
    get_latest(store, original_curator_hash, LinkTypes::CuratorUpdates)
}

/// The first record of a curator.
pub fn get_original_curator<'a>(
    store: &'a ContentStore,
    original_curator_hash: &RevisionId,
) -> (found: Option<&'a Record>)
    ensures
        is_record(found, lookup(store@, *original_curator_hash)),
{
    get_original(store, original_curator_hash)
}

/// Every revision of a curator, the first record first.
pub fn get_all_revisions_for_curator<'a>(
    store: &'a ContentStore,
    original_curator_hash: &RevisionId,
) -> (found: Result<Vec<&'a Record>, ValidationError>)
    ensures
        is_list_or_failure(
            found,
            spec_all_revisions(store@, *original_curator_hash, LinkTypes::CuratorUpdates),
        ),
        found matches Ok(list) ==> list@.len() >= 1 && lookup(store@, *original_curator_hash)
            == Some(*list@[0]),
{
    get_all_revisions(store, original_curator_hash, LinkTypes::CuratorUpdates)
}

/// An update of a curator: the first record of the curator, the record that
/// the update follows, and what the update says.
#[derive(Clone, Debug, PartialEq, Eq)]
pub struct UpdateCuratorInput {
    pub original_curator_hash: RevisionId,
    pub previous_curator_hash: RevisionId,
    pub updated_curator: Curator,
}

/// The edge that goes with an update of a curator: from the first record of
/// the curator to the new one.
pub fn update_curator(original_curator_hash: RevisionId, updated_curator_hash: RevisionId) -> (plan:
    CreateLinkInput)
    ensures
        plan.connects(
            LinkableHash::Action(original_curator_hash),
            LinkableHash::Action(updated_curator_hash),
            LinkTypes::CuratorUpdates,
            Seq::empty(),
        ),
{
    CreateLinkInput {
        base_address: LinkableHash::from_action_hash(original_curator_hash),
        target_address: LinkableHash::from_action_hash(updated_curator_hash),
        link_type: LinkTypes::CuratorUpdates,
        tag: Vec::new(),
    }
}

/// Whether a curator can be removed: its record has to be in the store.
pub fn delete_curator(store: &ContentStore, original_curator_hash: &RevisionId) -> (checked: Result<
    (),
    ValidationError,
>)
    ensures
        checked == if lookup(store@, *original_curator_hash) is Some {
            Ok::<(), ValidationError>(())
        } else {
            Err::<(), ValidationError>(ValidationError::Guest(GuestError::NotFound))
        },
{
    match get_original(store, original_curator_hash) {
        Some(_) => Ok(()),
        None => Err(ValidationError::Guest(GuestError::NotFound)),
    }
}

/// The records that mark a curator as removed.
pub fn get_all_deletes_for_curator<'a>(
    store: &'a ContentStore,
    original_curator_hash: &RevisionId,
) -> (found: Option<Vec<&'a Record>>)
    ensures
        is_list(found, spec_all_deletes(store@, *original_curator_hash)),
{
    get_all_deletes(store, original_curator_hash)
}

/// The oldest of the records that mark a curator as removed.
pub fn get_oldest_delete_for_curator<'a>(
    store: &'a ContentStore,
    original_curator_hash: &RevisionId,
) -> (found: Option<&'a Record>)
    ensures
        is_record(found, spec_oldest_delete(store@, *original_curator_hash)),
{
    get_oldest_delete(store, original_curator_hash)
}

} // verus!
