//! The edges between curators and the tools that they list.

use crate::hash::LinkableHash;
use crate::outcome::{
    invalid, valid, GuestError, Reason, ValidateCallbackResult, ValidationResult,
};
use crate::record::{CreateLink, DeleteLink, Record};
use crate::store::{fetch_linked, ContentStore};
use vstd::prelude::*;

verus! {

/// The answer on a new edge from a curator to a tool.
pub open spec fn create_link_curator_to_tools_answer(
    records: Seq<Record>,
    action: CreateLink,
    base_address: LinkableHash,
    target_address: LinkableHash,
) -> ValidationResult {
    match fetch_linked(records, base_address) {
        Err(e) => Err(e),
        Ok(curator_record) => if curator_record.spec_author() != action.author {
            invalid(Reason::CuratorToToolLinkByOther)
        } else {
            match curator_record.spec_curator(GuestError::NoEntry) {
                Err(e) => Err(e),
                Ok(_) => match fetch_linked(records, target_address) {
                    Err(e) => Err(e),
                    Ok(tool_record) => match tool_record.spec_tool(GuestError::NoEntry) {
                        Err(e) => Err(e),
                        Ok(_) => valid(),
                    },
                },
            }
        },
    }
}

/// An edge from a curator to a tool leads from a curator to a tool and is
/// made by the principal that created the curator.
pub fn validate_create_link_curator_to_tools(
    store: &ContentStore,
    action: &CreateLink,
    base_address: LinkableHash,
    target_address: LinkableHash,
    _tag: &Vec<u8>,
) -> (answer: ValidationResult)
    ensures
        answer == create_link_curator_to_tools_answer(
            store@,
            *action,
            base_address,
            target_address,
        ),
{
    let curator_record = store.must_get_linked_record(base_address)?;
    if curator_record.author() != action.author {
        return Ok(ValidateCallbackResult::Invalid(Reason::CuratorToToolLinkByOther));
    }
    let _curator = curator_record.curator(GuestError::NoEntry)?;
    let tool_record = store.must_get_linked_record(target_address)?;
    let _tool = tool_record.tool(GuestError::NoEntry)?;
    Ok(ValidateCallbackResult::Valid)
}

/// An edge from a curator to a tool can be removed by the principal that
/// made it.
pub fn validate_delete_link_curator_to_tools(
    _store: &ContentStore,
    action: &DeleteLink,
    original_action: &CreateLink,
    _base: LinkableHash,
    _target: LinkableHash,
    _tag: &Vec<u8>,
) -> (answer: ValidationResult)
    ensures
        answer == if action.author != original_action.author {
            invalid(Reason::CuratorToToolLinkDeleteByOther)
        } else {
            valid()
        },
{
    if action.author != original_action.author {
        return Ok(ValidateCallbackResult::Invalid(Reason::CuratorToToolLinkDeleteByOther));
    }
    Ok(ValidateCallbackResult::Valid)
}

/// The answer on a new edge from a tool to a curator.
pub open spec fn create_link_tool_to_curators_answer(
    records: Seq<Record>,
    action: CreateLink,
    base_address: LinkableHash,
    target_address: LinkableHash,
) -> ValidationResult {
    match fetch_linked(records, base_address) {
        Err(e) => Err(e),
        Ok(tool_record) => match tool_record.spec_tool(GuestError::NoEntry) {
            Err(e) => Err(e),
            Ok(_) => match fetch_linked(records, target_address) {
                Err(e) => Err(e),
                Ok(curator_record) => if curator_record.spec_author() != action.author {
                    invalid(Reason::ToolToCuratorLinkByOther)
                } else {
                    match curator_record.spec_curator(GuestError::NoEntry) {
                        Err(e) => Err(e),
                        Ok(_) => valid(),
                    }
                },
            },
        },
    }
}

/// An edge from a tool to a curator leads from a tool to a curator and is
/// made by the principal that created the curator.
pub fn validate_create_link_tool_to_curators(
    store: &ContentStore,
    action: &CreateLink,
    base_address: LinkableHash,
    target_address: LinkableHash,
    _tag: &Vec<u8>,
) -> (answer: ValidationResult)
    ensures
        answer == create_link_tool_to_curators_answer(
            store@,
            *action,
            base_address,
            target_address,
        ),
{
    let tool_record = store.must_get_linked_record(base_address)?;
    let _tool = tool_record.tool(GuestError::NoEntry)?;
    let curator_record = store.must_get_linked_record(target_address)?;
    if curator_record.author() != action.author {
        return Ok(ValidateCallbackResult::Invalid(Reason::ToolToCuratorLinkByOther));
    }
    let _curator = curator_record.curator(GuestError::NoEntry)?;
    Ok(ValidateCallbackResult::Valid)
}

/// An edge from a tool to a curator can be removed by the principal that
/// made it.
pub fn validate_delete_link_tool_to_curators(
    _store: &ContentStore,
    action: &DeleteLink,
    original_action: &CreateLink,
    _base: LinkableHash,
    _target: LinkableHash,
    _tag: &Vec<u8>,
) -> (answer: ValidationResult)
    ensures
        answer == if action.author != original_action.author {
            invalid(Reason::ToolToCuratorLinkDeleteByOther)
        } else {
            valid()
        },
{
    if action.author != original_action.author {
        return Ok(ValidateCallbackResult::Invalid(Reason::ToolToCuratorLinkDeleteByOther));
    }
    Ok(ValidateCallbackResult::Valid)
}

} // verus!
