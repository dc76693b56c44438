//! The list of all agents.

use crate::hash::LinkableHash;
use crate::outcome::{
    guest, invalid, valid, GuestError, Reason, ValidateCallbackResult, ValidationError,
    ValidationResult,
};
use crate::record::{CreateLink, DeleteLink};
use crate::store::{Anchors, ContentStore};
use vstd::prelude::*;

verus! {

/// The answer on a new edge of the list of all agents.
pub open spec fn create_link_all_agents_answer(
    anchors: Anchors,
    action: CreateLink,
    base_address: LinkableHash,
    target_address: LinkableHash,
) -> ValidationResult {
    match base_address.spec_into_entry_hash() {
        None => guest(GuestError::BaseNotEntryHash),
        Some(base) => if anchors.all_agents != base {
            invalid(Reason::NotFromAllAgentsAnchor)
        } else {
            match target_address.spec_into_agent_pub_key() {
                None => guest(GuestError::TargetNotAgentKey),
                Some(agent) => if action.author != agent {
                    invalid(Reason::AllAgentsLinkToOther)
                } else {
                    valid()
                },
            }
        },
    }
}

/// An edge of the list of all agents starts at the anchor of that list and
/// points to the principal that makes the edge.
pub fn validate_create_link_all_agents(
    store: &ContentStore,
    action: &CreateLink,
    base_address: LinkableHash,
    target_address: LinkableHash,
    _tag: &Vec<u8>,
) -> (answer: ValidationResult)
    ensures
        answer == create_link_all_agents_answer(
            store.spec_anchors(),
            *action,
            base_address,
            target_address,
        ),
{
    let base_address_entry_hash = match base_address.into_entry_hash() {
        Some(hash) => hash,
        None => {
            return Err(ValidationError::Guest(GuestError::BaseNotEntryHash));
        },
    };
    if store.anchors().all_agents != base_address_entry_hash {
        return Ok(ValidateCallbackResult::Invalid(Reason::NotFromAllAgentsAnchor));
    }
    let agent_pub_key = match target_address.into_agent_pub_key() {
        Some(key) => key,
        None => {
            return Err(ValidationError::Guest(GuestError::TargetNotAgentKey));
        },
    };
    if action.author != agent_pub_key {
        return Ok(ValidateCallbackResult::Invalid(Reason::AllAgentsLinkToOther));
    }
    Ok(ValidateCallbackResult::Valid)
}

/// An edge of the list of all agents is never removed.
pub fn validate_delete_link_all_agents(
    _store: &ContentStore,
    _action: &DeleteLink,
    _original_action: &CreateLink,
    _base: LinkableHash,
    _target: LinkableHash,
    _tag: &Vec<u8>,
) -> (answer: ValidationResult)
    ensures
        answer == invalid(Reason::AllAgentsLinkDeleted),
{
    Ok(ValidateCallbackResult::Invalid(Reason::AllAgentsLinkDeleted))
}

} // verus!
