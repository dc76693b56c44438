//! Reading tools, and planning what to write for them.

use crate::coordinator::revisions::{
    get_all_deletes, get_all_revisions, get_deleted_links, get_latest, get_linked_records,
    get_links_pointing_to, get_oldest_delete, get_original, is_deleted_links, linked_records,
    links_pointing_to, spec_all_deletes, spec_all_revisions, spec_latest, spec_oldest_delete,
};
use crate::coordinator::CreateLinkInput;
use crate::hash::{HashError, LinkableHash, RevisionId};
use crate::integrity::tool::Tool;
use crate::integrity::LinkTypes;
use crate::outcome::{GuestError, ValidationError};
use crate::record::Record;
use crate::store::{
    is_list, is_list_or_failure, is_record, is_record_or_failure, links, live, lookup, records_of,
    ContentStore, LinkDetails,
};
use vstd::prelude::*;

verus! {

/// The edge that goes with a new tool: from the collective of the tool to
/// the tool, with the permission under which the tool was written as tag.
pub fn create_tool(tool: &Tool, tool_hash: RevisionId) -> (plan: CreateLinkInput)
    ensures
        plan.connects(
            LinkableHash::Action(tool.developer_collective),
            LinkableHash::Action(tool_hash),
            LinkTypes::DeveloperCollectiveToTools,
            tool.permission_hash.spec_raw_39(),
        ),
        RevisionId::spec_from_raw_39(plan.tag@) == Ok::<RevisionId, HashError>(
            tool.permission_hash,
        ),
{
    CreateLinkInput {
        base_address: LinkableHash::from_action_hash(tool.developer_collective),
        target_address: LinkableHash::from_action_hash(tool_hash),
        link_type: LinkTypes::DeveloperCollectiveToTools,
        tag: tool.permission_hash.get_raw_39(),
    }
}

/// The latest revision of a tool.
pub fn get_latest_tool<'a>(store: &'a ContentStore, original_tool_hash: &RevisionId) -> (latest:
    Result<Option<&'a Record>, ValidationError>)
    ensures
        is_record_or_failure(
            latest,
            spec_latest(store@, *original_tool_hash, LinkTypes::ToolUpdates),
        ),
{
    get_latest(store, original_tool_hash, LinkTypes::ToolUpdates)
}

/// The first record of a tool.
pub fn get_original_tool<'a>(store: &'a ContentStore, original_tool_hash: &RevisionId) -> (found:
    Option<&'a Record>)
    ensures
        is_record(found, lookup(store@, *original_tool_hash)),
{
    get_original(store, original_tool_hash)
}

/// Every revision of a tool, the first record first.
pub fn get_all_revisions_for_tool<'a>(
    store: &'a ContentStore,
    original_tool_hash: &RevisionId,
) -> (found: Result<Vec<&'a Record>, ValidationError>)
    ensures
        is_list_or_failure(
            found,
            spec_all_revisions(store@, *original_tool_hash, LinkTypes::ToolUpdates),
        ),
        found matches Ok(list) ==> list@.len() >= 1 && lookup(store@, *original_tool_hash)
            == Some(*list@[0]),
{
    get_all_revisions(store, original_tool_hash, LinkTypes::ToolUpdates)
}

/// What an update says of a tool: everything but the collective, which a
/// tool keeps for good.
#[derive(Clone, Debug, PartialEq, Eq)]
pub struct UpdatedTool {
    pub permission_hash: RevisionId,
    pub title: String,
    pub subtitle: String,
    pub description: String,
    pub icon: String,
    pub version: String,
    pub source: String,
    pub hashes: String,
    pub changelog: Option<String>,
    pub meta_data: Option<String>,
    pub deprecation: Option<String>,
}

/// An update of a tool: the first record of the tool, the record that the
/// update follows, and what the update says.
#[derive(Clone, Debug, PartialEq, Eq)]
pub struct UpdateToolInput {
    pub original_tool_hash: RevisionId,
    pub previous_tool_hash: RevisionId,
    pub updated_tool: UpdatedTool,
}

impl UpdatedTool {
    /// The tool that this update makes of a tool of the collective
    /// `developer_collective`.
    pub open spec fn spec_into_tool(self, developer_collective: RevisionId) -> Tool {
        Tool {
            developer_collective,
            permission_hash: self.permission_hash,
            title: self.title,
            subtitle: self.subtitle,
            description: self.description,
            icon: self.icon,
            version: self.version,
            source: self.source,
            hashes: self.hashes,
            changelog: self.changelog,
            meta_data: self.meta_data,
            deprecation: self.deprecation,
        }
    }

    /// The tool that this update makes of a tool of the collective
    /// `developer_collective`.
    pub fn into_tool(self, developer_collective: RevisionId) -> (tool: Tool)
        ensures
            tool == self.spec_into_tool(developer_collective),
            tool.developer_collective == developer_collective,
    {
        Tool {
            developer_collective,
            permission_hash: self.permission_hash,
            title: self.title,
            subtitle: self.subtitle,
            description: self.description,
            icon: self.icon,
            version: self.version,
            source: self.source,
            hashes: self.hashes,
            changelog: self.changelog,
            meta_data: self.meta_data,
            deprecation: self.deprecation,
        }
    }
}

/// The tool that the first record of a tool holds, where that record is
/// shown.
pub open spec fn original_tool(records: Seq<Record>, original_tool_hash: RevisionId) -> Result<
    Tool,
    ValidationError,
> {
    match live(records, original_tool_hash) {
        None => Err(ValidationError::Guest(GuestError::OriginalToolMissing)),
        Some(record) => record.spec_tool(GuestError::NoEntry),
    }
}

/// The tool that an update writes: what the update says, under the
/// collective of the first record of the tool. It is a failure for the first
/// record not to be shown, or to hold no tool.
pub fn update_tool(store: &ContentStore, input: UpdateToolInput) -> (written: Result<
    Tool,
    ValidationError,
>)
    ensures
        match original_tool(store@, input.original_tool_hash) {
            Ok(original) => written == Ok::<Tool, ValidationError>(
                input.updated_tool.spec_into_tool(original.developer_collective),
            ),
            Err(e) => written == Err::<Tool, ValidationError>(e),
        },
{
    let original_tool_record = match store.get(&input.original_tool_hash) {
        Some(record) => record,
        None => {
            return Err(ValidationError::Guest(GuestError::OriginalToolMissing));
        },
    };
    let original_tool = original_tool_record.tool(GuestError::NoEntry)?;
    Ok(input.updated_tool.into_tool(original_tool.developer_collective))
}

/// The edge that goes with an update of a tool: from the first record of
/// the tool to the new one, with the permission under which the update was
/// written as tag.
pub fn update_tool_link(
    original_tool_hash: RevisionId,
    updated_tool_hash: RevisionId,
    permission_hash: RevisionId,
) -> (plan: CreateLinkInput)
    ensures
        plan.connects(
            LinkableHash::Action(original_tool_hash),
            LinkableHash::Action(updated_tool_hash),
            LinkTypes::ToolUpdates,
            permission_hash.spec_raw_39(),
        ),
        RevisionId::spec_from_raw_39(plan.tag@) == Ok::<RevisionId, HashError>(permission_hash),
{
    CreateLinkInput {
        base_address: LinkableHash::from_action_hash(original_tool_hash),
        target_address: LinkableHash::from_action_hash(updated_tool_hash),
        link_type: LinkTypes::ToolUpdates,
        tag: permission_hash.get_raw_39(),
    }
}

/// The tool that the record of a tool holds, for its removal.
pub open spec fn tool_to_delete(records: Seq<Record>, original_tool_hash: RevisionId) -> Result<
    Tool,
    ValidationError,
> {
    match lookup(records, original_tool_hash) {
        None => Err(ValidationError::Guest(GuestError::NotFound)),
        Some(record) => match record.entry.spec_as_option() {
            None => Err(ValidationError::Guest(GuestError::ToolRecordNoEntry)),
            Some(_) => match record.entry.spec_to_tool() {
                Ok(Some(tool)) => Ok(tool),
                _ => Err(ValidationError::Deserialize),
            },
        },
    }
}

/// The edges that go when a tool is removed: those from its collective that
/// point to it. It is a failure for the record of the tool not to be in the
/// store, or to hold no tool.
pub fn delete_tool(store: &ContentStore, original_tool_hash: &RevisionId) -> (plan: Result<
    Vec<RevisionId>,
    ValidationError,
>)
    ensures
        match tool_to_delete(store@, *original_tool_hash) {
            Ok(tool) => plan is Ok && plan->Ok_0@ == links_pointing_to(
                links(
                    store@,
                    LinkableHash::Action(tool.developer_collective),
                    LinkTypes::DeveloperCollectiveToTools,
                ),
                *original_tool_hash,
            ),
            Err(e) => plan == Err::<Vec<RevisionId>, ValidationError>(e),
        },
{
    let record = match get_original(store, original_tool_hash) {
        Some(record) => record,
        None => {
            return Err(ValidationError::Guest(GuestError::NotFound));
        },
    };
    if record.entry.as_option().is_none() {
        return Err(ValidationError::Guest(GuestError::ToolRecordNoEntry));
    }
    let tool = match record.entry.to_tool() {
        Ok(Some(tool)) => tool,
        _ => {
            return Err(ValidationError::Deserialize);
        },
    };
    Ok(
        get_links_pointing_to(
            store,
            &LinkableHash::Action(tool.developer_collective),
            LinkTypes::DeveloperCollectiveToTools,
            original_tool_hash,
        ),
    )
}

/// The records that mark a tool as removed.
pub fn get_all_deletes_for_tool<'a>(
    store: &'a ContentStore,
    original_tool_hash: &RevisionId,
) -> (found: Option<Vec<&'a Record>>)
    ensures
        is_list(found, spec_all_deletes(store@, *original_tool_hash)),
{
    get_all_deletes(store, original_tool_hash)
}

/// The oldest of the records that mark a tool as removed.
pub fn get_oldest_delete_for_tool<'a>(
    store: &'a ContentStore,
    original_tool_hash: &RevisionId,
) -> (found: Option<&'a Record>)
    ensures
        is_record(found, spec_oldest_delete(store@, *original_tool_hash)),
{
    get_oldest_delete(store, original_tool_hash)
}

/// The edges from a collective to its tools.
pub fn get_tool_links_for_developer_collective<'a>(
    store: &'a ContentStore,
    developer_collective_hash: &RevisionId,
) -> (found: Vec<&'a Record>)
    ensures
        records_of(found@) == links(
            store@,
            LinkableHash::Action(*developer_collective_hash),
            LinkTypes::DeveloperCollectiveToTools,
        ),
{
    store.get_links(
        &LinkableHash::Action(*developer_collective_hash),
        LinkTypes::DeveloperCollectiveToTools,
    )
}

/// The first records of the tools of a collective.
pub fn get_original_tools_for_developer_collective<'a>(
    store: &'a ContentStore,
    developer_collective_hash: &RevisionId,
) -> (found: Result<Vec<&'a Record>, ValidationError>)
    ensures
        is_list_or_failure(
            found,
            linked_records(
                store@,
                links(
                    store@,
                    LinkableHash::Action(*developer_collective_hash),
                    LinkTypes::DeveloperCollectiveToTools,
                ),
            ),
        ),
{
    let edges = get_tool_links_for_developer_collective(store, developer_collective_hash);
    get_linked_records(store, &edges)
}

/// The removed edges from a collective to its tools, each with the records
/// that mark it as removed.
pub fn get_deleted_tools_for_developer_collective<'a>(
    store: &'a ContentStore,
    developer_collective_hash: &RevisionId,
) -> (found: Vec<LinkDetails<'a>>)
    ensures
        is_deleted_links(
            found@,
            store@,
            LinkableHash::Action(*developer_collective_hash),
            LinkTypes::DeveloperCollectiveToTools,
        ),
{
    get_deleted_links(
        store,
        &LinkableHash::Action(*developer_collective_hash),
        LinkTypes::DeveloperCollectiveToTools,
    )
}

} // verus!
