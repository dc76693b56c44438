//! Contributor permissions: grants with which the owner of a collective
//! lets another principal publish under it.

use crate::hash::{LinkableHash, Principal, RevisionId};
use crate::outcome::{
    guest, invalid, valid, GuestError, Reason, ValidateCallbackResult, ValidationError,
    ValidationResult,
};
use crate::record::{CreateLink, Delete, DeleteLink, EntryCreationAction, Record, Timestamp, Update};
use crate::store::{fetch, fetch_linked, ContentStore};
use vstd::prelude::*;

verus! {

/// A grant: `for_agent` may publish under `for_collective`, until `expiry`
/// where there is one.
#[derive(Clone, Copy, Debug, PartialEq, Eq)]
pub struct ContributorPermission {
    pub for_collective: RevisionId,
    pub for_agent: Principal,
    pub expiry: Option<Timestamp>,
}

/// The answer on the creation of a permission.
pub open spec fn create_contributor_permission_answer(
    records: Seq<Record>,
    action: EntryCreationAction,
    contributor_permission: ContributorPermission,
) -> ValidationResult {
    match fetch(records, contributor_permission.for_collective) {
        Err(e) => Err(e),
        Ok(record) => if record.spec_author() != action.spec_author() {
            invalid(Reason::PermissionIssuedByOther)
        } else {
            match record.spec_developer_collective(GuestError::DependantNoEntry) {
                Err(e) => Err(e),
                Ok(_) => valid(),
            }
        },
    }
}

/// Only the owner of a collective issues permissions for it.
pub fn validate_create_contributor_permission(
    store: &ContentStore,
    action: &EntryCreationAction,
    contributor_permission: &ContributorPermission,
) -> (answer: ValidationResult)
    ensures
        answer == create_contributor_permission_answer(store@, *action, *contributor_permission),
{
    let record = store.must_get_valid_record(&contributor_permission.for_collective)?;
    if record.author() != action.author() {
        return Ok(ValidateCallbackResult::Invalid(Reason::PermissionIssuedByOther));
    }
    let _developer_collective = record.developer_collective(GuestError::DependantNoEntry)?;
    Ok(ValidateCallbackResult::Valid)
}

/// A permission is never updated.
pub fn validate_update_contributor_permission(
    _store: &ContentStore,
    _action: &Update,
    _contributor_permission: &ContributorPermission,
    _original_action: &EntryCreationAction,
    _original_contributor_permission: &ContributorPermission,
) -> (answer: ValidationResult)
    ensures
        answer == invalid(Reason::PermissionUpdated),
{
    Ok(ValidateCallbackResult::Invalid(Reason::PermissionUpdated))
}

/// A permission is never deleted.
pub fn validate_delete_contributor_permission(
    _store: &ContentStore,
    _action: &Delete,
    _original_action: &EntryCreationAction,
    _original_contributor_permission: &ContributorPermission,
) -> (answer: ValidationResult)
    ensures
        answer == invalid(Reason::PermissionDeleted),
{
    Ok(ValidateCallbackResult::Invalid(Reason::PermissionDeleted))
}

/// The permission that the record at an end of an edge holds.
pub open spec fn fetch_linked_permission(records: Seq<Record>, address: LinkableHash) -> Result<
    ContributorPermission,
    ValidationError,
> {
    match fetch_linked(records, address) {
        Err(e) => Err(e),
        Ok(record) => record.spec_contributor_permission(GuestError::NoEntry),
    }
}

/// The answer on a new edge from a collective to a permission.
pub open spec fn create_link_developer_collective_to_contributor_permissions_answer(
    records: Seq<Record>,
    action: CreateLink,
    base_address: LinkableHash,
    target_address: LinkableHash,
    tag: Seq<u8>,
) -> ValidationResult {
    match fetch_linked(records, base_address) {
        Err(e) => Err(e),
        Ok(collective_record) => if collective_record.spec_author() != action.author {
            invalid(Reason::PermissionLinkByOther)
        } else {
            match collective_record.spec_developer_collective(GuestError::NoEntry) {
                Err(e) => Err(e),
                Ok(_) => match fetch_linked_permission(records, target_address) {
                    Err(e) => Err(e),
                    Ok(permission) => match Principal::spec_from_raw_39(tag) {
                        Err(e) => invalid(Reason::TagNotAgentKey(e)),
                        Ok(agent_in_tag) => if agent_in_tag != permission.for_agent {
                            invalid(Reason::TagWrongAgent)
                        } else if Some(permission.for_collective)
                            != base_address.spec_into_action_hash() {
                            invalid(Reason::PermissionOfOtherCollective)
                        } else {
                            valid()
                        },
                    },
                },
            }
        },
    }
}

/// An edge from a collective to a permission is made by the owner of the
/// collective, points to a permission for that collective, and names in its
/// tag the principal that the permission is for.
pub fn validate_create_link_developer_collective_to_contributor_permissions(
    store: &ContentStore,
    action: &CreateLink,
    base_address: LinkableHash,
    target_address: LinkableHash,
    tag: &Vec<u8>,
) -> (answer: ValidationResult)
    ensures
        answer == create_link_developer_collective_to_contributor_permissions_answer(
            store@,
            *action,
            base_address,
            target_address,
            tag@,
        ),
{
    let developer_collective_action_hash = match base_address.into_action_hash() {
        Some(hash) => hash,
        None => {
            return Err(ValidationError::Guest(GuestError::NoActionHash));
        },
    };
    let developer_collective_record = store.must_get_valid_record(
        &developer_collective_action_hash,
    )?;
    if developer_collective_record.author() != action.author {
        return Ok(ValidateCallbackResult::Invalid(Reason::PermissionLinkByOther));
    }
    let _developer_collective = developer_collective_record.developer_collective(
        GuestError::NoEntry,
    )?;
    let contributor_permission_record = store.must_get_linked_record(target_address)?;
    let contributor_permission = contributor_permission_record.contributor_permission(
        GuestError::NoEntry,
    )?;
    let agent_in_tag = match Principal::from_raw_39(tag) {
        Ok(agent) => agent,
        Err(e) => {
            return Ok(ValidateCallbackResult::Invalid(Reason::TagNotAgentKey(e)));
        },
    };
    if agent_in_tag != contributor_permission.for_agent {
        return Ok(ValidateCallbackResult::Invalid(Reason::TagWrongAgent));
    }
    if contributor_permission.for_collective != developer_collective_action_hash {
        return Ok(ValidateCallbackResult::Invalid(Reason::PermissionOfOtherCollective));
    }
    Ok(ValidateCallbackResult::Valid)
}

/// An edge from a collective to a permission is never removed.
pub fn validate_delete_link_developer_collective_to_contributor_permissions(
    _store: &ContentStore,
    _action: &DeleteLink,
    _original_action: &CreateLink,
    _base: LinkableHash,
    _target: LinkableHash,
    _tag: &Vec<u8>,
) -> (answer: ValidationResult)
    ensures
        answer == invalid(Reason::CollectiveToPermissionsLinkDeleted),
{
    Ok(ValidateCallbackResult::Invalid(Reason::CollectiveToPermissionsLinkDeleted))
}

/// The answer on a new edge from a contributor to a permission.
pub open spec fn create_link_contributor_to_contributor_permissions_answer(
    records: Seq<Record>,
    action: CreateLink,
    base_address: LinkableHash,
    target_address: LinkableHash,
    tag: Seq<u8>,
) -> ValidationResult {
    match fetch_linked(records, target_address) {
        Err(e) => Err(e),
        Ok(permission_record) => if permission_record.spec_author() != action.author {
            invalid(Reason::ContributorLinkByOther)
        } else {
            match permission_record.spec_contributor_permission(GuestError::NoEntry) {
                Err(e) => Err(e),
                Ok(permission) => match base_address.spec_into_agent_pub_key() {
                    None => guest(GuestError::NoAgentAsBase),
                    Some(contributor) => match RevisionId::spec_from_raw_39(tag) {
                        Err(e) => invalid(Reason::TagNotActionHash(e)),
                        Ok(collective_in_tag) => if collective_in_tag
                            != permission.for_collective {
                            invalid(Reason::TagWrongCollective)
                        } else if permission.for_agent != contributor {
                            invalid(Reason::PermissionOfOtherAgent)
                        } else {
                            valid()
                        },
                    },
                },
            }
        },
    }
}

/// An edge from a contributor to a permission is made by the principal that
/// issued the permission, starts at the principal that the permission is
/// for, and names in its tag the collective that the permission is for.
pub fn validate_create_link_contributor_to_contributor_permissions(
    store: &ContentStore,
    action: &CreateLink,
    base_address: LinkableHash,
    target_address: LinkableHash,
    tag: &Vec<u8>,
) -> (answer: ValidationResult)
    ensures
        answer == create_link_contributor_to_contributor_permissions_answer(
            store@,
            *action,
            base_address,
            target_address,
            tag@,
        ),
{
    let contributor_permission_record = store.must_get_linked_record(target_address)?;
    if contributor_permission_record.author() != action.author {
        return Ok(ValidateCallbackResult::Invalid(Reason::ContributorLinkByOther));
    }
    let contributor_permission = contributor_permission_record.contributor_permission(
        GuestError::NoEntry,
    )?;
    let contributor_agent_key = match base_address.into_agent_pub_key() {
        Some(key) => key,
        None => {
            return Err(ValidationError::Guest(GuestError::NoAgentAsBase));
        },
    };
    let developer_collective_in_tag = match RevisionId::from_raw_39(tag) {
        Ok(hash) => hash,
        Err(e) => {
            return Ok(ValidateCallbackResult::Invalid(Reason::TagNotActionHash(e)));
        },
    };
    if developer_collective_in_tag != contributor_permission.for_collective {
        return Ok(ValidateCallbackResult::Invalid(Reason::TagWrongCollective));
    }
    if contributor_permission.for_agent != contributor_agent_key {
        return Ok(ValidateCallbackResult::Invalid(Reason::PermissionOfOtherAgent));
    }
    Ok(ValidateCallbackResult::Valid)
}

/// An edge from a contributor to a permission is never removed.
pub fn validate_delete_link_contributor_to_contributor_permissions(
    _store: &ContentStore,
    _action: &DeleteLink,
    _original_action: &CreateLink,
    _base: LinkableHash,
    _target: LinkableHash,
    _tag: &Vec<u8>,
) -> (answer: ValidationResult)
    ensures
        answer == invalid(Reason::ContributorToPermissionsLinkDeleted),
{
    Ok(ValidateCallbackResult::Invalid(Reason::ContributorToPermissionsLinkDeleted))
}

} // verus!
