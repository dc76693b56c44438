//! Tools: what is published under a collective.

use crate::hash::{LinkableHash, Principal, RevisionId};
use crate::integrity::contributor_permission::ContributorPermission;
use crate::outcome::{
    guest, invalid, valid, GuestError, Reason, ValidateCallbackResult, ValidationError,
    ValidationResult,
};
use crate::record::{CreateLink, Delete, DeleteLink, EntryCreationAction, Record, Timestamp, Update};
use crate::store::{fetch, lookup, ContentStore};
use vstd::prelude::*;

verus! {

/// A published tool.
#[derive(Clone, Debug, PartialEq, Eq)]
pub struct Tool {
    /// The first revision of the collective that the tool belongs to.
    pub developer_collective: RevisionId,
    /// Under which permission the tool was written: the collective itself,
    /// for its owner, or a permission that the owner issued.
    pub permission_hash: RevisionId,
    pub title: String,
    pub subtitle: String,
    pub description: String,
    pub icon: String,
    pub version: String,
    pub source: String,
    pub hashes: String,
    pub changelog: Option<String>,
    pub meta_data: Option<String>,
    pub deprecation: Option<String>,
}

/// Whether a permission lets `agent` act for `collective` at `timestamp`:
/// it is issued to that principal, for that collective, and has not ended
/// before that time.
pub open spec fn permits(
    permission: ContributorPermission,
    agent: Principal,
    collective: RevisionId,
    timestamp: Timestamp,
) -> bool {
    &&& permission.for_agent == agent
    &&& permission.for_collective == collective
    &&& match permission.expiry {
        Some(expiry) => !(expiry.0 < timestamp.0),
        None => true,
    }
}

/// The verdict on a permission held against a principal, a collective and
/// a time.
pub open spec fn permission_verdict(
    permission: ContributorPermission,
    agent: Principal,
    collective: RevisionId,
    timestamp: Timestamp,
) -> ValidateCallbackResult {
    if permission.for_agent != agent {
        ValidateCallbackResult::Invalid(Reason::WrongAgent)
    } else if permission.for_collective != collective {
        ValidateCallbackResult::Invalid(Reason::WrongCollective)
    } else if permission.expiry matches Some(expiry) && expiry.0 < timestamp.0 {
        ValidateCallbackResult::Invalid(Reason::Expired)
    } else {
        ValidateCallbackResult::Valid
    }
}

/// Whether the store shows that `agent` may act for `collective` at
/// `timestamp` under what `permission_hash` names: either the collective
/// itself, which `agent` created, or a permission that permits it.
pub open spec fn authorizes(
    records: Seq<Record>,
    permission_hash: RevisionId,
    agent: Principal,
    collective: RevisionId,
    timestamp: Timestamp,
) -> bool {
    match lookup(records, permission_hash) {
        Some(record) => if permission_hash == collective {
            record.spec_author() == agent
        } else {
            match record.entry.spec_to_contributor_permission() {
                Ok(Some(permission)) => permits(permission, agent, collective, timestamp),
                _ => false,
            }
        },
        None => false,
    }
}

/// The answer of the permission check.
pub open spec fn contributor_permission_answer(
    records: Seq<Record>,
    permission_hash: RevisionId,
    agent: Principal,
    collective: RevisionId,
    timestamp: Timestamp,
) -> ValidationResult {
    match fetch(records, permission_hash) {
        Err(e) => Err(e),
        Ok(record) => if permission_hash == collective {
            if record.spec_author() == agent {
                valid()
            } else {
                invalid(Reason::NoPermission)
            }
        } else {
            match record.entry.spec_to_contributor_permission() {
                Ok(Some(permission)) => Ok(
                    permission_verdict(permission, agent, collective, timestamp),
                ),
                _ => invalid(Reason::NoPermission),
            }
        },
    }
}

/// Checks that `agent` may act for the collective `developer_collective_hash`
/// at `timestamp` under what `permission_hash` names.
///
/// The owner of a collective names the collective itself. Anyone else names
/// a permission, which has to be issued to them, for this collective, and
/// must not have ended before `timestamp`. Who names the collective without
/// being its owner, or names a record that holds no permission, has no
/// permission and is refused. Only a record that is not in the store leaves
/// the question open. Only the time that the mutation
/// declares is held against the end of the permission, never the clock.
pub fn validate_contributor_permission(
    store: &ContentStore,
    permission_hash: RevisionId,
    agent: Principal,
    developer_collective_hash: RevisionId,
    timestamp: Timestamp,
) -> (answer: ValidationResult)
    ensures
        answer == contributor_permission_answer(
            store@,
            permission_hash,
            agent,
            developer_collective_hash,
            timestamp,
        ),
        answer == valid() <==> authorizes(
            store@,
            permission_hash,
            agent,
            developer_collective_hash,
            timestamp,
        ),
{
    let permission_record = store.must_get_valid_record(&permission_hash)?;
    if permission_hash == developer_collective_hash {
        if permission_record.author() == agent {
            Ok(ValidateCallbackResult::Valid)
        } else {
            Ok(ValidateCallbackResult::Invalid(Reason::NoPermission))
        }
    } else {
        let permission = match permission_record.entry.to_contributor_permission() {
            Ok(Some(permission)) => permission,
            _ => {
                return Ok(ValidateCallbackResult::Invalid(Reason::NoPermission));
            },
        };
        if permission.for_agent != agent {
            return Ok(ValidateCallbackResult::Invalid(Reason::WrongAgent));
        }
        if permission.for_collective != developer_collective_hash {
            return Ok(ValidateCallbackResult::Invalid(Reason::WrongCollective));
        }
        if let Some(expiry) = permission.expiry {
            if expiry.0 < timestamp.0 {
                return Ok(ValidateCallbackResult::Invalid(Reason::Expired));
            }
        }
        Ok(ValidateCallbackResult::Valid)
    }
}

/// The answer on the creation of a tool.
pub open spec fn create_tool_answer(
    records: Seq<Record>,
    action: EntryCreationAction,
    tool: Tool,
) -> ValidationResult {
    match fetch(records, tool.developer_collective) {
        Err(e) => Err(e),
        Ok(record) => match record.spec_developer_collective(GuestError::DependantNoEntry) {
            Err(e) => Err(e),
            Ok(_) => contributor_permission_answer(
                records,
                tool.permission_hash,
                action.spec_author(),
                tool.developer_collective,
                action.spec_timestamp(),
            ),
        },
    }
}

/// A tool can be created under a collective by the owner of the collective
/// and by a principal with a permission that holds at the time of creation.
pub fn validate_create_tool(
    store: &ContentStore,
    action: &EntryCreationAction,
    tool: &Tool,
) -> (answer: ValidationResult)
    ensures
        answer == create_tool_answer(store@, *action, *tool),
{
    let record = store.must_get_valid_record(&tool.developer_collective)?;
    let _developer_collective = record.developer_collective(GuestError::DependantNoEntry)?;
    validate_contributor_permission(
        store,
        tool.permission_hash,
        action.author(),
        tool.developer_collective,
        action.timestamp(),
    )
}

/// The answer on the update of a tool.
pub open spec fn update_tool_answer(
    records: Seq<Record>,
    action: Update,
    tool: Tool,
    original_tool: Tool,
) -> ValidationResult {
    if tool.developer_collective != original_tool.developer_collective {
        invalid(Reason::CollectiveChanged)
    } else {
        contributor_permission_answer(
            records,
            tool.permission_hash,
            action.author,
            original_tool.developer_collective,
            action.timestamp,
        )
    }
}

/// A tool stays with its collective for good. It can be updated by the owner
/// of the collective and by a principal with a permission that holds at the
/// time of the update.
pub fn validate_update_tool(
    store: &ContentStore,
    action: &Update,
    tool: &Tool,
    _original_action: &EntryCreationAction,
    original_tool: &Tool,
) -> (answer: ValidationResult)
    ensures
        answer == update_tool_answer(store@, *action, *tool, *original_tool),
        tool.developer_collective != original_tool.developer_collective ==> answer == invalid(
            Reason::CollectiveChanged,
        ),
{
    if tool.developer_collective != original_tool.developer_collective {
        return Ok(ValidateCallbackResult::Invalid(Reason::CollectiveChanged));
    }
    validate_contributor_permission(
        store,
        tool.permission_hash,
        action.author,
        original_tool.developer_collective,
        action.timestamp,
    )
}

/// The answer on the removal of a tool.
pub open spec fn delete_tool_answer(
    records: Seq<Record>,
    action: Delete,
    original_action: EntryCreationAction,
    original_tool: Tool,
) -> ValidationResult {
    if action.author == original_action.spec_author() {
        valid()
    } else {
        match fetch(records, original_tool.developer_collective) {
            Err(e) => Err(e),
            Ok(collective_record) => if collective_record.spec_author() == action.author {
                valid()
            } else {
                invalid(Reason::NotCollectiveCreatorNorAuthor)
            },
        }
    }
}

/// A tool can be removed by the principal that created it and by the owner
/// of its collective.
pub fn validate_delete_tool(
    store: &ContentStore,
    action: &Delete,
    original_action: &EntryCreationAction,
    original_tool: &Tool,
) -> (answer: ValidationResult)
    ensures
        answer == delete_tool_answer(store@, *action, *original_action, *original_tool),
{
    if action.author == original_action.author() {
        Ok(ValidateCallbackResult::Valid)
    } else {
        let collective_record = store.must_get_valid_record(&original_tool.developer_collective)?;
        if collective_record.author() == action.author {
            return Ok(ValidateCallbackResult::Valid);
        }
        Ok(ValidateCallbackResult::Invalid(Reason::NotCollectiveCreatorNorAuthor))
    }
}

/// The tool that the record `id` holds.
pub open spec fn fetch_tool(records: Seq<Record>, id: RevisionId) -> Result<Tool, ValidationError> {
    match fetch(records, id) {
        Err(e) => Err(e),
        Ok(record) => record.spec_tool(GuestError::NoEntry),
    }
}

/// The answer on a new edge from a collective to a tool.
pub open spec fn create_link_developer_collective_to_tools_answer(
    records: Seq<Record>,
    action: CreateLink,
    base_address: LinkableHash,
    target_address: LinkableHash,
    tag: Seq<u8>,
) -> ValidationResult {
    match RevisionId::spec_from_raw_39(tag) {
        Err(e) => invalid(Reason::TagNotActionHash(e)),
        Ok(permission_hash) => match base_address.spec_into_action_hash() {
            None => guest(GuestError::NoActionHash),
            Some(collective) => match contributor_permission_answer(
                records,
                permission_hash,
                action.author,
                collective,
                action.timestamp,
            ) {
                Ok(ValidateCallbackResult::Valid) => match fetch(records, collective) {
                    Err(e) => Err(e),
                    Ok(collective_record) => match collective_record.spec_developer_collective(
                        GuestError::NoEntry,
                    ) {
                        Err(e) => Err(e),
                        Ok(_) => match target_address.spec_into_action_hash() {
                            None => guest(GuestError::NoActionHash),
                            Some(tool_hash) => match fetch_tool(records, tool_hash) {
                                Err(e) => Err(e),
                                Ok(tool) => if tool.developer_collective != collective {
                                    invalid(Reason::ToolOfOtherCollective)
                                } else {
                                    valid()
                                },
                            },
                        },
                    },
                },
                refused => refused,
            },
        },
    }
}

/// An edge from a collective to a tool can be made by whoever passes the
/// permission check with the permission that the tag of the edge names, and
/// only to a tool that belongs to that collective.
pub fn validate_create_link_developer_collective_to_tools(
    store: &ContentStore,
    action: &CreateLink,
    base_address: LinkableHash,
    target_address: LinkableHash,
    tag: &Vec<u8>,
) -> (answer: ValidationResult)
    ensures
        answer == create_link_developer_collective_to_tools_answer(
            store@,
            *action,
            base_address,
            target_address,
            tag@,
        ),
{
    let permission_action_hash = match RevisionId::from_raw_39(tag) {
        Ok(hash) => hash,
        Err(e) => {
            return Ok(ValidateCallbackResult::Invalid(Reason::TagNotActionHash(e)));
        },
    };
    let collective_action_hash = match base_address.into_action_hash() {
        Some(hash) => hash,
        None => {
            return Err(ValidationError::Guest(GuestError::NoActionHash));
        },
    };
    let checked = validate_contributor_permission(
        store,
        permission_action_hash,
        action.author,
        collective_action_hash,
        action.timestamp,
    )?;
    if !checked.is_valid() {
        return Ok(checked);
    }
    let collective_record = store.must_get_valid_record(&collective_action_hash)?;
    let _developer_collective = collective_record.developer_collective(GuestError::NoEntry)?;
    let tool_action_hash = match target_address.into_action_hash() {
        Some(hash) => hash,
        None => {
            return Err(ValidationError::Guest(GuestError::NoActionHash));
        },
    };
    let tool_record = store.must_get_valid_record(&tool_action_hash)?;
    let tool = tool_record.tool(GuestError::NoEntry)?;
    if tool.developer_collective != collective_action_hash {
        return Ok(ValidateCallbackResult::Invalid(Reason::ToolOfOtherCollective));
    }
    Ok(ValidateCallbackResult::Valid)
}

/// The answer on the removal of an edge from a collective to a tool.
pub open spec fn delete_link_developer_collective_to_tools_answer(
    records: Seq<Record>,
    action: DeleteLink,
    original_action: CreateLink,
    base: LinkableHash,
    target: LinkableHash,
) -> ValidationResult {
    if action.author == original_action.author {
        valid()
    } else {
        match base.spec_into_action_hash() {
            None => guest(GuestError::BaseNotActionHash),
            Some(collective) => match fetch(records, collective) {
                Err(e) => Err(e),
                Ok(collective_record) => if collective_record.spec_author() == action.author {
                    valid()
                } else {
                    match target.spec_into_action_hash() {
                        None => invalid(Reason::NotCollectiveCreatorNorAuthor),
                        Some(tool_hash) => match fetch(records, tool_hash) {
                            Err(e) => Err(e),
                            Ok(tool_record) => if tool_record.spec_author() == action.author {
                                valid()
                            } else {
                                invalid(Reason::NotCollectiveCreatorNorAuthor)
                            },
                        },
                    }
                },
            },
        }
    }
}

/// An edge from a collective to a tool can be removed by the principal that
/// made the edge, by the owner of the collective and by the principal that
/// created the tool.
pub fn validate_delete_link_developer_collective_to_tools(
    store: &ContentStore,
    action: &DeleteLink,
    original_action: &CreateLink,
    base: LinkableHash,
    target: LinkableHash,
    _tag: &Vec<u8>,
) -> (answer: ValidationResult)
    ensures
        answer == delete_link_developer_collective_to_tools_answer(
            store@,
            *action,
            *original_action,
            base,
            target,
        ),
{
    if action.author == original_action.author {
        return Ok(ValidateCallbackResult::Valid);
    }
    let collective_action_hash = match base.into_action_hash() {
        Some(hash) => hash,
        None => {
            return Err(ValidationError::Guest(GuestError::BaseNotActionHash));
        },
    };
    let collective_record = store.must_get_valid_record(&collective_action_hash)?;
    if collective_record.author() == action.author {
        return Ok(ValidateCallbackResult::Valid);
    }
    let tool_action_hash = match target.into_action_hash() {
        Some(hash) => hash,
        None => {
            return Ok(ValidateCallbackResult::Invalid(Reason::NotCollectiveCreatorNorAuthor));
        },
    };
    let tool_record = store.must_get_valid_record(&tool_action_hash)?;
    if tool_record.author() == action.author {
        return Ok(ValidateCallbackResult::Valid);
    }
    Ok(ValidateCallbackResult::Invalid(Reason::NotCollectiveCreatorNorAuthor))
}

/// The answer of the permission check for a step on the tool at `base`,
/// under the permission `permission_hash`.
pub open spec fn tool_permission_answer(
    records: Seq<Record>,
    permission_hash: RevisionId,
    agent: Principal,
    timestamp: Timestamp,
    base: LinkableHash,
) -> ValidationResult {
    match base.spec_into_action_hash() {
        None => guest(GuestError::NoActionHash),
        Some(tool_hash) => match fetch_tool(records, tool_hash) {
            Err(e) => Err(e),
            Ok(tool) => contributor_permission_answer(
                records,
                permission_hash,
                agent,
                tool.developer_collective,
                timestamp,
            ),
        },
    }
}

fn validate_tool_permission(
    store: &ContentStore,
    permission_hash: RevisionId,
    agent: Principal,
    timestamp: Timestamp,
    base: LinkableHash,
) -> (answer: ValidationResult)
    ensures
        answer == tool_permission_answer(store@, permission_hash, agent, timestamp, base),
{
    let tool_action_hash = match base.into_action_hash() {
        Some(hash) => hash,
        None => {
            return Err(ValidationError::Guest(GuestError::NoActionHash));
        },
    };
    let tool_record = store.must_get_valid_record(&tool_action_hash)?;
    let tool = tool_record.tool(GuestError::NoEntry)?;
    validate_contributor_permission(
        store,
        permission_hash,
        agent,
        tool.developer_collective,
        timestamp,
    )
}

/// The answer on a new update edge of a tool.
pub open spec fn create_link_tool_updates_answer(
    records: Seq<Record>,
    action: CreateLink,
    base_address: LinkableHash,
    target_address: LinkableHash,
    tag: Seq<u8>,
) -> ValidationResult {
    match RevisionId::spec_from_raw_39(tag) {
        Err(e) => invalid(Reason::TagNotActionHash(e)),
        Ok(permission_hash) => match tool_permission_answer(
            records,
            permission_hash,
            action.author,
            action.timestamp,
            base_address,
        ) {
            Ok(ValidateCallbackResult::Valid) => match target_address.spec_into_action_hash() {
                None => guest(GuestError::NoActionHash),
                Some(update_hash) => match fetch_tool(records, update_hash) {
                    Err(e) => Err(e),
                    Ok(_) => valid(),
                },
            },
            refused => refused,
        },
    }
}

/// An update edge of a tool leads from a tool to a tool. It can be made by
/// whoever passes the permission check, for the collective of the tool that
/// the edge starts from, with the permission that the tag of the edge names.
pub fn validate_create_link_tool_updates(
    store: &ContentStore,
    action: &CreateLink,
    base_address: LinkableHash,
    target_address: LinkableHash,
    tag: &Vec<u8>,
) -> (answer: ValidationResult)
    ensures
        answer == create_link_tool_updates_answer(
            store@,
            *action,
            base_address,
            target_address,
            tag@,
        ),
{
    let permission_action_hash = match RevisionId::from_raw_39(tag) {
        Ok(hash) => hash,
        Err(e) => {
            return Ok(ValidateCallbackResult::Invalid(Reason::TagNotActionHash(e)));
        },
    };
    let checked = validate_tool_permission(
        store,
        permission_action_hash,
        action.author,
        action.timestamp,
        base_address,
    )?;
    if !checked.is_valid() {
        return Ok(checked);
    }
    let tool_update_action_hash = match target_address.into_action_hash() {
        Some(hash) => hash,
        None => {
            return Err(ValidationError::Guest(GuestError::NoActionHash));
        },
    };
    let tool_update_record = store.must_get_valid_record(&tool_update_action_hash)?;
    let _tool = tool_update_record.tool(GuestError::NoEntry)?;
    Ok(ValidateCallbackResult::Valid)
}

/// An update edge of a tool is never removed.
pub fn validate_delete_link_tool_updates(
    _store: &ContentStore,
    _action: &DeleteLink,
    _original_action: &CreateLink,
    _base: LinkableHash,
    _target: LinkableHash,
    _tag: &Vec<u8>,
) -> (answer: ValidationResult)
    ensures
        answer == invalid(Reason::ToolUpdatesLinkDeleted),
{
    Ok(ValidateCallbackResult::Invalid(Reason::ToolUpdatesLinkDeleted))
}

/// The answer on a new edge from a tool to a tag.
pub open spec fn create_link_tool_to_tag_answer(
    records: Seq<Record>,
    action: CreateLink,
    base_address: LinkableHash,
    target_address: LinkableHash,
    tag: Seq<u8>,
) -> ValidationResult {
    match RevisionId::spec_from_raw_39(tag) {
        Err(e) => invalid(Reason::TagNotActionHash(e)),
        Ok(permission_hash) => match tool_permission_answer(
            records,
            permission_hash,
            action.author,
            action.timestamp,
            base_address,
        ) {
            Ok(ValidateCallbackResult::Valid) => if target_address.spec_into_entry_hash()
                is Some {
                valid()
            } else {
                invalid(Reason::TargetNotEntryHash)
            },
            refused => refused,
        },
    }
}

/// An edge from a tool to a tag points to content. It can be made by
/// whoever passes the permission check, for the collective of the tool, with
/// the permission that the tag of the edge names.
pub fn validate_create_link_tool_to_tag(
    store: &ContentStore,
    action: &CreateLink,
    base_address: LinkableHash,
    target_address: LinkableHash,
    tag: &Vec<u8>,
) -> (answer: ValidationResult)
    ensures
        answer == create_link_tool_to_tag_answer(
            store@,
            *action,
            base_address,
            target_address,
            tag@,
        ),
{
    let permission_action_hash = match RevisionId::from_raw_39(tag) {
        Ok(hash) => hash,
        Err(e) => {
            return Ok(ValidateCallbackResult::Invalid(Reason::TagNotActionHash(e)));
        },
    };
    let checked = validate_tool_permission(
        store,
        permission_action_hash,
        action.author,
        action.timestamp,
        base_address,
    )?;
    if !checked.is_valid() {
        return Ok(checked);
    }
    match target_address.into_entry_hash() {
        Some(_) => Ok(ValidateCallbackResult::Valid),
        None => Ok(ValidateCallbackResult::Invalid(Reason::TargetNotEntryHash)),
    }
}

/// The answer on the removal of an edge from a tool to a tag.
pub open spec fn delete_link_tool_to_tag_answer(
    records: Seq<Record>,
    action: DeleteLink,
    base: LinkableHash,
) -> ValidationResult {
    match fetch(records, action.prev_action) {
        Err(e) => Err(e),
        Ok(record) => match record.entry.spec_to_contributor_permission_claim() {
            Err(e) => Err(e),
            Ok(None) => invalid(Reason::PreviousActionNotClaim),
            Ok(Some(claim)) => tool_permission_answer(
                records,
                claim.permission_hash,
                action.author,
                action.timestamp,
                base,
            ),
        },
    }
}

/// An edge from a tool to a tag can be removed by whoever passes the
/// permission check for the collective of the tool. The permission is the one
/// named by the permission claim that the same principal has to make as the
/// step just before the removal.
pub fn validate_delete_link_tool_to_tag(
    store: &ContentStore,
    action: &DeleteLink,
    _original_action: &CreateLink,
    base: LinkableHash,
    _target: LinkableHash,
    _tag: &Vec<u8>,
) -> (answer: ValidationResult)
    ensures
        answer == delete_link_tool_to_tag_answer(store@, *action, base),
{
    let record = store.must_get_valid_record(&action.prev_action)?;
    let contributor_permission_claim = match record.entry.to_contributor_permission_claim()? {
        Some(claim) => claim,
        None => {
            return Ok(ValidateCallbackResult::Invalid(Reason::PreviousActionNotClaim));
        },
    };
    validate_tool_permission(
        store,
        contributor_permission_claim.permission_hash,
        action.author,
        action.timestamp,
        base,
    )
}

} // verus!
