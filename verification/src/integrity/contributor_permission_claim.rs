//! Permission claims: with one, a principal states under which permission
//! its next step is made.

use crate::hash::RevisionId;
use crate::outcome::{
    invalid, valid, GuestError, Reason, ValidateCallbackResult, ValidationResult,
};
use crate::record::{Delete, EntryCreationAction, Record, Update};
use crate::store::{fetch, ContentStore};
use vstd::prelude::*;

verus! {

/// The statement that the next step of its author is made under the
/// permission `permission_hash`.
#[derive(Clone, Copy, Debug, PartialEq, Eq)]
pub struct ContributorPermissionClaim {
    pub permission_hash: RevisionId,
}

/// The answer on the creation of a permission claim.
pub open spec fn create_contributor_permission_claim_answer(
    records: Seq<Record>,
    contributor_permission_claim: ContributorPermissionClaim,
) -> ValidationResult {
    match fetch(records, contributor_permission_claim.permission_hash) {
        Err(e) => Err(e),
        Ok(record) => match record.spec_contributor_permission(
            GuestError::ClaimWithoutPermission,
        ) {
            Err(e) => Err(e),
            Ok(_) => valid(),
        },
    }
}

/// A permission claim names a record that holds a permission.
pub fn validate_create_contributor_permission_claim(
    store: &ContentStore,
    _action: &EntryCreationAction,
    contributor_permission_claim: &ContributorPermissionClaim,
) -> (answer: ValidationResult)
    ensures
        answer == create_contributor_permission_claim_answer(store@, *contributor_permission_claim),
{
    let record = store.must_get_valid_record(&contributor_permission_claim.permission_hash)?;
    let _contributor_permission = record.contributor_permission(
        GuestError::ClaimWithoutPermission,
    )?;
    Ok(ValidateCallbackResult::Valid)
}

/// A permission claim is never updated.
pub fn validate_update_contributor_permission_claim(
    _store: &ContentStore,
    _action: &Update,
    _contributor_permission_claim: &ContributorPermissionClaim,
    _original_action: &EntryCreationAction,
    _original_contributor_permission_claim: &ContributorPermissionClaim,
) -> (answer: ValidationResult)
    ensures
        answer == invalid(Reason::ClaimUpdated),
{
    Ok(ValidateCallbackResult::Invalid(Reason::ClaimUpdated))
}

/// A permission claim is never deleted.
pub fn validate_delete_contributor_permission_claim(
    _store: &ContentStore,
    _action: &Delete,
    _original_action: &EntryCreationAction,
    _original_contributor_permission_claim: &ContributorPermissionClaim,
) -> (answer: ValidationResult)
    ensures
        answer == invalid(Reason::ClaimDeleted),
{
    Ok(ValidateCallbackResult::Invalid(Reason::ClaimDeleted))
}

} // verus!
