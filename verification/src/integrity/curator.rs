//! Curators: people who recommend tools and collectives.

use crate::hash::LinkableHash;
use crate::outcome::{
    guest, invalid, valid, GuestError, Reason, ValidateCallbackResult, ValidationError,
    ValidationResult,
};
use crate::record::{CreateLink, Delete, DeleteLink, EntryCreationAction, Record, Update};
use crate::store::{fetch_linked, Anchors, ContentStore};
use vstd::prelude::*;

verus! {

/// What a curator says of itself.
#[derive(Clone, Debug, PartialEq, Eq)]
pub struct Curator {
    pub name: String,
    pub description: String,
    pub icon: String,
    pub website: Option<String>,
    pub email: Option<String>,
    pub meta_data: Option<String>,
}

/// Anyone can create a curator.
pub fn validate_create_curator(_action: &EntryCreationAction, _curator: &Curator) -> (answer:
    ValidationResult)
    ensures
        answer == valid(),
{
    Ok(ValidateCallbackResult::Valid)
}

/// A curator can be updated by the principal that created it.
pub fn validate_update_curator(
    action: &Update,
    _curator: &Curator,
    original_action: &EntryCreationAction,
    _original_curator: &Curator,
) -> (answer: ValidationResult)
    ensures
        answer == if action.author != original_action.spec_author() {
            invalid(Reason::CuratorUpdateByOther)
        } else {
            valid()
        },
{
    if action.author != original_action.author() {
        return Ok(ValidateCallbackResult::Invalid(Reason::CuratorUpdateByOther));
    }
    Ok(ValidateCallbackResult::Valid)
}

/// A curator can be deleted by the principal that created it.
pub fn validate_delete_curator(
    action: &Delete,
    original_action: &EntryCreationAction,
    _original_curator: &Curator,
) -> (answer: ValidationResult)
    ensures
        answer == if action.author != original_action.spec_author() {
            invalid(Reason::CuratorDeleteByOther)
        } else {
            valid()
        },
{
    if action.author != original_action.author() {
        return Ok(ValidateCallbackResult::Invalid(Reason::CuratorDeleteByOther));
    }
    Ok(ValidateCallbackResult::Valid)
}

/// The answer on a new update edge of a curator.
pub open spec fn create_link_curator_updates_answer(
    records: Seq<Record>,
    action: CreateLink,
    base_address: LinkableHash,
    target_address: LinkableHash,
) -> ValidationResult {
    match fetch_linked(records, base_address) {
        Err(e) => Err(e),
        Ok(curator_record) => if curator_record.spec_author() != action.author {
            invalid(Reason::CuratorUpdateLinkByOther)
        } else {
            match curator_record.spec_curator(GuestError::CuratorBaseNoEntry) {
                Err(e) => Err(e),
                Ok(_) => match fetch_linked(records, target_address) {
                    Err(e) => Err(e),
                    Ok(update_record) => match update_record.spec_curator(
                        GuestError::CuratorTargetNoEntry,
                    ) {
                        Err(e) => Err(e),
                        Ok(_) => valid(),
                    },
                },
            }
        },
    }
}

/// An update edge of a curator leads from a curator to a curator and is made
/// by the principal that created the curator it starts from.
pub fn validate_create_link_curator_updates(
    store: &ContentStore,
    action: &CreateLink,
    base_address: LinkableHash,
    target_address: LinkableHash,
    _tag: &Vec<u8>,
) -> (answer: ValidationResult)
    ensures
        answer == create_link_curator_updates_answer(
            store@,
            *action,
            base_address,
            target_address,
        ),
{
    let curator_record = store.must_get_linked_record(base_address)?;
    if curator_record.author() != action.author {
        return Ok(ValidateCallbackResult::Invalid(Reason::CuratorUpdateLinkByOther));
    }
    let _curator = curator_record.curator(GuestError::CuratorBaseNoEntry)?;
    let curator_update_record = store.must_get_linked_record(target_address)?;
    let _curator_update = curator_update_record.curator(GuestError::CuratorTargetNoEntry)?;
    Ok(ValidateCallbackResult::Valid)
}

/// An update edge of a curator is never removed.
pub fn validate_delete_link_curator_updates(
    _store: &ContentStore,
    _action: &DeleteLink,
    _original_action: &CreateLink,
    _base: LinkableHash,
    _target: LinkableHash,
    _tag: &Vec<u8>,
) -> (answer: ValidationResult)
    ensures
        answer == invalid(Reason::CuratorUpdatesLinkDeleted),
{
    Ok(ValidateCallbackResult::Invalid(Reason::CuratorUpdatesLinkDeleted))
}

/// The answer on a new edge of the list of all curators.
pub open spec fn create_link_all_curators_answer(
    records: Seq<Record>,
    anchors: Anchors,
    action: CreateLink,
    base_address: LinkableHash,
    target_address: LinkableHash,
) -> ValidationResult {
    match base_address.spec_into_entry_hash() {
        None => guest(GuestError::BaseNotEntryHash),
        Some(base) => if anchors.all_curators != base {
            invalid(Reason::NotFromAllCuratorsAnchor)
        } else {
            match fetch_linked(records, target_address) {
                Err(e) => Err(e),
                Ok(record) => match record.spec_curator(GuestError::NoCuratorEntry) {
                    Err(e) => Err(e),
                    Ok(_) => if action.author != record.spec_author() {
                        invalid(Reason::AllCuratorsLinkByOther)
                    } else {
                        valid()
                    },
                },
            }
        },
    }
}

/// An edge of the list of all curators starts at the anchor of that list,
/// points to a curator, and is made by the principal that created the
/// curator.
pub fn validate_create_link_all_curators(
    store: &ContentStore,
    action: &CreateLink,
    base_address: LinkableHash,
    target_address: LinkableHash,
    _tag: &Vec<u8>,
) -> (answer: ValidationResult)
    ensures
        answer == create_link_all_curators_answer(
            store@,
            store.spec_anchors(),
            *action,
            base_address,
            target_address,
        ),
{
    let base_address_entry_hash = match base_address.into_entry_hash() {
        Some(hash) => hash,
        None => {
            return Err(ValidationError::Guest(GuestError::BaseNotEntryHash));
        },
    };
    if store.anchors().all_curators != base_address_entry_hash {
        return Ok(ValidateCallbackResult::Invalid(Reason::NotFromAllCuratorsAnchor));
    }
    let record = store.must_get_linked_record(target_address)?;
    let _curator = record.curator(GuestError::NoCuratorEntry)?;
    if action.author != record.author() {
        return Ok(ValidateCallbackResult::Invalid(Reason::AllCuratorsLinkByOther));
    }
    Ok(ValidateCallbackResult::Valid)
}

/// An edge of the list of all curators can be removed by the principal that
/// made it.
pub fn validate_delete_link_all_curators(
    _store: &ContentStore,
    action: &DeleteLink,
    original_action: &CreateLink,
    _base: LinkableHash,
    _target: LinkableHash,
    _tag: &Vec<u8>,
) -> (answer: ValidationResult)
    ensures
        answer == if action.author != original_action.author {
            invalid(Reason::AllCuratorsLinkDeleteByOther)
        } else {
            valid()
        },
{
    if action.author != original_action.author {
        return Ok(ValidateCallbackResult::Invalid(Reason::AllCuratorsLinkDeleteByOther));
    }
    Ok(ValidateCallbackResult::Valid)
}

} // verus!
