//! The edges between curators and the collectives that they list.

use crate::hash::LinkableHash;
use crate::outcome::{
    invalid, valid, GuestError, Reason, ValidateCallbackResult, ValidationResult,
};
use crate::record::{CreateLink, DeleteLink, Record};
use crate::store::{fetch_linked, ContentStore};
use vstd::prelude::*;

verus! {

/// The answer on a new edge from a curator to a collective.
pub open spec fn create_link_curator_to_developer_collectives_answer(
    records: Seq<Record>,
    action: CreateLink,
    base_address: LinkableHash,
    target_address: LinkableHash,
) -> ValidationResult {
    match fetch_linked(records, base_address) {
        Err(e) => Err(e),
        Ok(curator_record) => if curator_record.spec_author() != action.author {
            invalid(Reason::CuratorToCollectiveLinkByOther)
        } else {
            match curator_record.spec_curator(GuestError::NoEntry) {
                Err(e) => Err(e),
                Ok(_) => match fetch_linked(records, target_address) {
                    Err(e) => Err(e),
                    Ok(collective_record) => match collective_record.spec_developer_collective(
                        GuestError::NoEntry,
                    ) {
                        Err(e) => Err(e),
                        Ok(_) => valid(),
                    },
                },
            }
        },
    }
}

/// An edge from a curator to a collective leads from a curator to a
/// collective and is made by the principal that created the curator.
pub fn validate_create_link_curator_to_developer_collectives(
    store: &ContentStore,
    action: &CreateLink,
    base_address: LinkableHash,
    target_address: LinkableHash,
    _tag: &Vec<u8>,
) -> (answer: ValidationResult)
    ensures
        answer == create_link_curator_to_developer_collectives_answer(
            store@,
            *action,
            base_address,
            target_address,
        ),
{
    let curator_record = store.must_get_linked_record(base_address)?;
    if curator_record.author() != action.author {
        return Ok(ValidateCallbackResult::Invalid(Reason::CuratorToCollectiveLinkByOther));
    }
    let _curator = curator_record.curator(GuestError::NoEntry)?;
    let collective_record = store.must_get_linked_record(target_address)?;
    let _developer_collective = collective_record.developer_collective(GuestError::NoEntry)?;
    Ok(ValidateCallbackResult::Valid)
}

/// An edge from a curator to a collective can be removed by the principal
/// that made it.
pub fn validate_delete_link_curator_to_developer_collectives(
    _store: &ContentStore,
    action: &DeleteLink,
    original_action: &CreateLink,
    _base: LinkableHash,
    _target: LinkableHash,
    _tag: &Vec<u8>,
) -> (answer: ValidationResult)
    ensures
        answer == if action.author != original_action.author {
            invalid(Reason::CuratorCollectiveLinkDeleteByOther)
        } else {
            valid()
        },
{
    if action.author != original_action.author {
        return Ok(ValidateCallbackResult::Invalid(Reason::CuratorCollectiveLinkDeleteByOther));
    }
    Ok(ValidateCallbackResult::Valid)
}

/// The answer on a new edge from a collective to a curator.
pub open spec fn create_link_developer_collective_to_curators_answer(
    records: Seq<Record>,
    action: CreateLink,
    base_address: LinkableHash,
    target_address: LinkableHash,
) -> ValidationResult {
    match fetch_linked(records, base_address) {
        Err(e) => Err(e),
        Ok(collective_record) => match collective_record.spec_developer_collective(
            GuestError::NoEntry,
        ) {
            Err(e) => Err(e),
            Ok(_) => match fetch_linked(records, target_address) {
                Err(e) => Err(e),
                Ok(curator_record) => if curator_record.spec_author() != action.author {
                    invalid(Reason::CollectiveToCuratorLinkByOther)
                } else {
                    match curator_record.spec_curator(GuestError::NoEntry) {
                        Err(e) => Err(e),
                        Ok(_) => valid(),
                    }
                },
            },
        },
    }
}

/// An edge from a collective to a curator leads from a collective to a
/// curator and is made by the principal that created the curator.
pub fn validate_create_link_developer_collective_to_curators(
    store: &ContentStore,
    action: &CreateLink,
    base_address: LinkableHash,
    target_address: LinkableHash,
    _tag: &Vec<u8>,
) -> (answer: ValidationResult)
    ensures
        answer == create_link_developer_collective_to_curators_answer(
            store@,
            *action,
            base_address,
            target_address,
        ),
{
    let collective_record = store.must_get_linked_record(base_address)?;
    let _developer_collective = collective_record.developer_collective(GuestError::NoEntry)?;
    let curator_record = store.must_get_linked_record(target_address)?;
    if curator_record.author() != action.author {
        return Ok(ValidateCallbackResult::Invalid(Reason::CollectiveToCuratorLinkByOther));
    }
    let _curator = curator_record.curator(GuestError::NoEntry)?;
    Ok(ValidateCallbackResult::Valid)
}

/// An edge from a collective to a curator can be removed by the principal
/// that made it.
pub fn validate_delete_link_developer_collective_to_curators(
    _store: &ContentStore,
    action: &DeleteLink,
    original_action: &CreateLink,
    _base: LinkableHash,
    _target: LinkableHash,
    _tag: &Vec<u8>,
) -> (answer: ValidationResult)
    ensures
        answer == if action.author != original_action.author {
            invalid(Reason::CuratorCollectiveLinkDeleteByOther)
        } else {
            valid()
        },
{
    if action.author != original_action.author {
        return Ok(ValidateCallbackResult::Invalid(Reason::CuratorCollectiveLinkDeleteByOther));
    }
    Ok(ValidateCallbackResult::Valid)
}

} // verus!
