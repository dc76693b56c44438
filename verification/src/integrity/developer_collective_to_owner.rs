//! The edge from a collective to the principal that owns it.

use crate::hash::LinkableHash;
use crate::outcome::{
    guest, invalid, valid, GuestError, Reason, ValidateCallbackResult, ValidationError,
    ValidationResult,
};
use crate::record::{CreateLink, DeleteLink, Record};
use crate::store::{fetch_linked, ContentStore};
use vstd::prelude::*;

verus! {

/// The answer on a new edge from a collective to its owner.
pub open spec fn create_link_developer_collective_to_owner_answer(
    records: Seq<Record>,
    action: CreateLink,
    base_address: LinkableHash,
    target_address: LinkableHash,
) -> ValidationResult {
    match fetch_linked(records, base_address) {
        Err(e) => Err(e),
        Ok(collective_record) => match collective_record.spec_developer_collective(
            GuestError::NoEntry,
        ) {
            Err(e) => Err(e),
            Ok(_) => match target_address.spec_into_agent_pub_key() {
                None => guest(GuestError::NoAgentKey),
                Some(owner) => if owner != action.author {
                    invalid(Reason::OwnerLinkByOther)
                } else {
                    valid()
                },
            },
        },
    }
}

/// An edge from a collective to its owner starts at a collective and points
/// to the principal that makes the edge.
pub fn validate_create_link_developer_collective_to_owner(
    store: &ContentStore,
    action: &CreateLink,
    base_address: LinkableHash,
    target_address: LinkableHash,
    _tag: &Vec<u8>,
) -> (answer: ValidationResult)
    ensures
        answer == create_link_developer_collective_to_owner_answer(
            store@,
            *action,
            base_address,
            target_address,
        ),
{
    let collective_record = store.must_get_linked_record(base_address)?;
    let _developer_collective = collective_record.developer_collective(GuestError::NoEntry)?;
    let owner_agent_key = match target_address.into_agent_pub_key() {
        Some(key) => key,
        None => {
            return Err(ValidationError::Guest(GuestError::NoAgentKey));
        },
    };
    if owner_agent_key != action.author {
        return Ok(ValidateCallbackResult::Invalid(Reason::OwnerLinkByOther));
    }
    Ok(ValidateCallbackResult::Valid)
}

/// An edge from a collective to its owner can be removed by the principal
/// that made it.
pub fn validate_delete_link_developer_collective_to_owner(
    _store: &ContentStore,
    action: &DeleteLink,
    original_action: &CreateLink,
    _base: LinkableHash,
    _target: LinkableHash,
    _tag: &Vec<u8>,
) -> (answer: ValidationResult)
    ensures
        answer == if action.author != original_action.author {
            invalid(Reason::OwnerLinkDeleteByOther)
        } else {
            valid()
        },
{
    if action.author != original_action.author {
        return Ok(ValidateCallbackResult::Invalid(Reason::OwnerLinkDeleteByOther));
    }
    Ok(ValidateCallbackResult::Valid)
}

} // verus!
