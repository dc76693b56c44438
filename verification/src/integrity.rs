//! The rules that every peer runs on every proposed mutation.
//!
//! A rule reads the mutation and what the store holds, and nothing else:
//! no clock, nothing that only this peer knows. Two peers that hold the same
//! records give the same answer.

pub mod all_agents;
pub mod contributor_permission;
pub mod contributor_permission_claim;
pub mod curator;
pub mod curator_to_developer_collectives;
pub mod curator_to_tools;
pub mod developer_collective;
pub mod developer_collective_to_owner;
pub mod op;
pub mod tool;

use crate::hash::{LinkableHash, Principal, RevisionId};
use crate::integrity::all_agents::{
    create_link_all_agents_answer, validate_create_link_all_agents, validate_delete_link_all_agents,
};
use crate::integrity::contributor_permission::{
    create_contributor_permission_answer,
    create_link_contributor_to_contributor_permissions_answer,
    create_link_developer_collective_to_contributor_permissions_answer,
    validate_create_contributor_permission,
    validate_create_link_contributor_to_contributor_permissions,
    validate_create_link_developer_collective_to_contributor_permissions,
    validate_delete_contributor_permission,
    validate_delete_link_contributor_to_contributor_permissions,
    validate_delete_link_developer_collective_to_contributor_permissions,
    validate_update_contributor_permission, ContributorPermission,
};
use crate::integrity::contributor_permission_claim::{
    create_contributor_permission_claim_answer, validate_create_contributor_permission_claim,
    validate_delete_contributor_permission_claim, validate_update_contributor_permission_claim,
    ContributorPermissionClaim,
};
use crate::integrity::curator::{
    create_link_all_curators_answer, create_link_curator_updates_answer, validate_create_curator,
    validate_create_link_all_curators, validate_create_link_curator_updates,
    validate_delete_curator, validate_delete_link_all_curators,
    validate_delete_link_curator_updates, validate_update_curator, Curator,
};
use crate::integrity::curator_to_developer_collectives::{
    create_link_curator_to_developer_collectives_answer,
    create_link_developer_collective_to_curators_answer,
    validate_create_link_curator_to_developer_collectives,
    validate_create_link_developer_collective_to_curators,
    validate_delete_link_curator_to_developer_collectives,
    validate_delete_link_developer_collective_to_curators,
};
use crate::integrity::curator_to_tools::{
    create_link_curator_to_tools_answer, create_link_tool_to_curators_answer,
    validate_create_link_curator_to_tools, validate_create_link_tool_to_curators,
    validate_delete_link_curator_to_tools, validate_delete_link_tool_to_curators,
};
use crate::integrity::developer_collective::{
    create_link_all_developer_collectives_answer, create_link_developer_collective_updates_answer,
    size_verdict, update_developer_collective_answer, validate_create_developer_collective,
    validate_create_link_all_developer_collectives,
    validate_create_link_developer_collective_updates, validate_delete_developer_collective,
    validate_delete_link_all_developer_collectives,
    validate_delete_link_developer_collective_updates, validate_update_developer_collective,
    DeveloperCollective,
};
use crate::integrity::developer_collective_to_owner::{
    create_link_developer_collective_to_owner_answer,
    validate_create_link_developer_collective_to_owner,
    validate_delete_link_developer_collective_to_owner,
};
use crate::integrity::op::{FlatOp, OpActivity, OpDelete, OpEntry, OpRecord, OpUpdate};
use crate::integrity::tool::{
    create_link_developer_collective_to_tools_answer, create_link_tool_to_tag_answer,
    create_link_tool_updates_answer, create_tool_answer,
    delete_link_developer_collective_to_tools_answer, delete_link_tool_to_tag_answer,
    delete_tool_answer, update_tool_answer, validate_create_link_developer_collective_to_tools,
    validate_create_link_tool_to_tag, validate_create_link_tool_updates, validate_create_tool,
    validate_delete_link_developer_collective_to_tools, validate_delete_link_tool_to_tag,
    validate_delete_link_tool_updates, validate_delete_tool, validate_update_tool, Tool,
};
use crate::outcome::{
    invalid, valid, Reason, ValidateCallbackResult, ValidationError, ValidationResult,
};
use crate::record::{
    Action, Create, CreateLink, Delete, DeleteLink, Entry, EntryCreationAction, EntryType,
    EntryVisibility, Record, RecordEntry, Update,
};
use crate::store::{fetch, Anchors, ContentStore};
use vstd::prelude::*;

verus! {

/// The kinds of entry that this library defines.
#[derive(Clone, Debug, PartialEq, Eq)]
pub enum EntryTypes {
    Curator(Curator),
    DeveloperCollective(DeveloperCollective),
    ContributorPermission(ContributorPermission),
    ContributorPermissionClaim(ContributorPermissionClaim),
    Tool(Tool),
}

/// The kinds of edge that this library defines.
#[derive(Clone, Copy, Debug, PartialEq, Eq, Structural, Hash)]
pub enum LinkTypes {
    /// From the first revision of a curator to a later one.
    CuratorUpdates,
    /// From the first revision of a collective to a later one.
    DeveloperCollectiveUpdates,
    /// From a collective to a permission issued for it; the tag names the
    /// principal that the permission is for.
    DeveloperCollectiveToContributorPermissions,
    /// From a principal to a permission issued to it; the tag names the
    /// collective that the permission is for.
    ContributorToContributorPermissions,
    /// From a collective to a tool published under it; the tag names the
    /// permission under which the edge was made.
    DeveloperCollectiveToTools,
    /// From the first revision of a tool to a later one; the tag names the
    /// permission under which the edge was made.
    ToolUpdates,
    /// From a tool to a tag; the tag of the edge names the permission under
    /// which the edge was made.
    ToolToTag,
    /// From the anchor of all agents to an agent.
    AllAgents,
    /// From the anchor of all curators to a curator.
    AllCurators,
    /// From the anchor of all collectives to a collective.
    AllDeveloperCollectives,
    /// From a collective to the principal that created it.
    DeveloperCollectiveToOwner,
    /// From a curator to a collective that it lists.
    CuratorToDeveloperCollectives,
    /// From a collective to a curator that lists it.
    DeveloperCollectiveToCurators,
    /// From a curator to a tool that it lists.
    CuratorToTools,
    /// From a tool to a curator that lists it.
    ToolToCurators,
}


/// What the tag of an edge names.
#[derive(Clone, Copy, Debug, PartialEq, Eq, Structural, Hash)]
pub enum TagKind {
    /// A principal, in its wire form.
    Principal,
    /// A revision, in its wire form.
    Revision,
}

impl LinkTypes {
    /// What the tag of an edge of this kind has to name; nothing, for the
    /// kinds of edge whose tag no rule reads.
    pub open spec fn spec_tag_kind(self) -> Option<TagKind> {
        match self {
            LinkTypes::DeveloperCollectiveToContributorPermissions => Some(TagKind::Principal),
            LinkTypes::ContributorToContributorPermissions
            | LinkTypes::DeveloperCollectiveToTools
            | LinkTypes::ToolUpdates
            | LinkTypes::ToolToTag => Some(TagKind::Revision),
            _ => None,
        }
    }

    /// What the tag of an edge of this kind has to name.
    pub fn tag_kind(&self) -> (kind: Option<TagKind>)
        ensures
            kind == self.spec_tag_kind(),
    {
        match self {
            LinkTypes::DeveloperCollectiveToContributorPermissions => Some(TagKind::Principal),
            LinkTypes::ContributorToContributorPermissions
            | LinkTypes::DeveloperCollectiveToTools
            | LinkTypes::ToolUpdates
            | LinkTypes::ToolToTag => Some(TagKind::Revision),
            _ => None,
        }
    }
}

/// Whether a tag names something of the kind `kind`.
pub open spec fn tag_names(kind: TagKind, tag: Seq<u8>) -> bool {
    match kind {
        TagKind::Principal => Principal::spec_from_raw_39(tag) is Ok,
        TagKind::Revision => RevisionId::spec_from_raw_39(tag) is Ok,
    }
}

/// The answer on a new entry: on its creation, and on the new entry of an
/// update.
pub open spec fn create_entry_answer(
    records: Seq<Record>,
    action: EntryCreationAction,
    app_entry: EntryTypes,
) -> ValidationResult {
    match app_entry {
        EntryTypes::Curator(_) => valid(),
        EntryTypes::DeveloperCollective(developer_collective) => Ok(
            size_verdict(developer_collective),
        ),
        EntryTypes::ContributorPermission(contributor_permission) => {
            create_contributor_permission_answer(records, action, contributor_permission)
        },
        EntryTypes::ContributorPermissionClaim(claim) => {
            create_contributor_permission_claim_answer(records, claim)
        },
        EntryTypes::Tool(tool) => create_tool_answer(records, action, tool),
    }
}

/// Runs the rule on a new entry of the kind that the entry has.
pub fn validate_create_entry(
    store: &ContentStore,
    action: &EntryCreationAction,
    app_entry: &EntryTypes,
) -> (answer: ValidationResult)
    ensures
        answer == create_entry_answer(store@, *action, *app_entry),
{
    match app_entry {
        EntryTypes::Curator(curator) => validate_create_curator(action, curator),
        EntryTypes::DeveloperCollective(developer_collective) => {
            validate_create_developer_collective(action, developer_collective)
        },
        EntryTypes::ContributorPermission(contributor_permission) => {
            validate_create_contributor_permission(store, action, contributor_permission)
        },
        EntryTypes::ContributorPermissionClaim(claim) => {
            validate_create_contributor_permission_claim(store, action, claim)
        },
        EntryTypes::Tool(tool) => validate_create_tool(store, action, tool),
    }
}

/// The answer on an entry that takes the place of another one. A permission
/// and a permission claim are never updated, whatever they stand in the place
/// of. Any other entry keeps its kind, and the rule on updates of that kind
/// decides.
pub open spec fn update_entry_answer(
    records: Seq<Record>,
    action: Update,
    app_entry: EntryTypes,
    original_action: EntryCreationAction,
    original_app_entry: EntryTypes,
) -> ValidationResult {
    match app_entry {
        EntryTypes::ContributorPermission(_) => invalid(Reason::PermissionUpdated),
        EntryTypes::ContributorPermissionClaim(_) => invalid(Reason::ClaimUpdated),
        EntryTypes::Tool(tool) => match original_app_entry {
            EntryTypes::Tool(original_tool) => update_tool_answer(
                records,
                action,
                tool,
                original_tool,
            ),
            _ => invalid(Reason::EntryKindChanged),
        },
        EntryTypes::DeveloperCollective(developer_collective) => match original_app_entry {
            EntryTypes::DeveloperCollective(_) => update_developer_collective_answer(
                action,
                developer_collective,
                original_action,
            ),
            _ => invalid(Reason::EntryKindChanged),
        },
        EntryTypes::Curator(_) => match original_app_entry {
            EntryTypes::Curator(_) => if action.author != original_action.spec_author() {
                invalid(Reason::CuratorUpdateByOther)
            } else {
                valid()
            },
            _ => invalid(Reason::EntryKindChanged),
        },
    }
}

/// Runs the rule on the update of an entry.
pub fn validate_update_entry(
    store: &ContentStore,
    action: &Update,
    app_entry: &EntryTypes,
    original_action: &EntryCreationAction,
    original_app_entry: &EntryTypes,
) -> (answer: ValidationResult)
    ensures
        answer == update_entry_answer(
            store@,
            *action,
            *app_entry,
            *original_action,
            *original_app_entry,
        ),
{
    match app_entry {
        EntryTypes::ContributorPermission(contributor_permission) => match original_app_entry {
            EntryTypes::ContributorPermission(original_contributor_permission) => {
                validate_update_contributor_permission(
                    store,
                    action,
                    contributor_permission,
                    original_action,
                    original_contributor_permission,
                )
            },
            _ => Ok(ValidateCallbackResult::Invalid(Reason::PermissionUpdated)),
        },
        EntryTypes::ContributorPermissionClaim(claim) => match original_app_entry {
            EntryTypes::ContributorPermissionClaim(original_claim) => {
                validate_update_contributor_permission_claim(
                    store,
                    action,
                    claim,
                    original_action,
                    original_claim,
                )
            },
            _ => Ok(ValidateCallbackResult::Invalid(Reason::ClaimUpdated)),
        },
        EntryTypes::Tool(tool) => match original_app_entry {
            EntryTypes::Tool(original_tool) => validate_update_tool(
                store,
                action,
                tool,
                original_action,
                original_tool,
            ),
            _ => Ok(ValidateCallbackResult::Invalid(Reason::EntryKindChanged)),
        },
        EntryTypes::DeveloperCollective(developer_collective) => match original_app_entry {
            EntryTypes::DeveloperCollective(original_developer_collective) => {
                validate_update_developer_collective(
                    action,
                    developer_collective,
                    original_action,
                    original_developer_collective,
                )
            },
            _ => Ok(ValidateCallbackResult::Invalid(Reason::EntryKindChanged)),
        },
        EntryTypes::Curator(curator) => match original_app_entry {
            EntryTypes::Curator(original_curator) => validate_update_curator(
                action,
                curator,
                original_action,
                original_curator,
            ),
            _ => Ok(ValidateCallbackResult::Invalid(Reason::EntryKindChanged)),
        },
    }
}

/// The answer on the removal of an entry.
pub open spec fn delete_entry_answer(
    records: Seq<Record>,
    action: Delete,
    original_action: EntryCreationAction,
    original_app_entry: EntryTypes,
) -> ValidationResult {
    match original_app_entry {
        EntryTypes::Curator(_) => if action.author != original_action.spec_author() {
            invalid(Reason::CuratorDeleteByOther)
        } else {
            valid()
        },
        EntryTypes::DeveloperCollective(_) => if action.author != original_action.spec_author() {
            invalid(Reason::CollectiveDeleteByOther)
        } else {
            valid()
        },
        EntryTypes::ContributorPermission(_) => invalid(Reason::PermissionDeleted),
        EntryTypes::ContributorPermissionClaim(_) => invalid(Reason::ClaimDeleted),
        EntryTypes::Tool(original_tool) => delete_tool_answer(
            records,
            action,
            original_action,
            original_tool,
        ),
    }
}

/// Runs the rule on the removal of an entry of the kind that the entry has.
pub fn validate_delete_entry(
    store: &ContentStore,
    action: &Delete,
    original_action: &EntryCreationAction,
    original_app_entry: &EntryTypes,
) -> (answer: ValidationResult)
    ensures
        answer == delete_entry_answer(store@, *action, *original_action, *original_app_entry),
{
    match original_app_entry {
        EntryTypes::Curator(curator) => validate_delete_curator(action, original_action, curator),
        EntryTypes::DeveloperCollective(developer_collective) => {
            validate_delete_developer_collective(action, original_action, developer_collective)
        },
        EntryTypes::ContributorPermission(contributor_permission) => {
            validate_delete_contributor_permission(
                store,
                action,
                original_action,
                contributor_permission,
            )
        },
        EntryTypes::ContributorPermissionClaim(claim) => {
            validate_delete_contributor_permission_claim(store, action, original_action, claim)
        },
        EntryTypes::Tool(tool) => validate_delete_tool(store, action, original_action, tool),
    }
}

/// The answer on a new edge.
pub open spec fn create_link_answer(
    records: Seq<Record>,
    anchors: Anchors,
    link_type: LinkTypes,
    action: CreateLink,
    base_address: LinkableHash,
    target_address: LinkableHash,
    tag: Seq<u8>,
) -> ValidationResult {
    match link_type {
        LinkTypes::CuratorUpdates => create_link_curator_updates_answer(
            records,
            action,
            base_address,
            target_address,
        ),
        LinkTypes::DeveloperCollectiveUpdates => create_link_developer_collective_updates_answer(
            records,
            action,
            base_address,
            target_address,
        ),
        LinkTypes::DeveloperCollectiveToContributorPermissions => {
            create_link_developer_collective_to_contributor_permissions_answer(
                records,
                action,
                base_address,
                target_address,
                tag,
            )
        },
        LinkTypes::ContributorToContributorPermissions => {
            create_link_contributor_to_contributor_permissions_answer(
                records,
                action,
                base_address,
                target_address,
                tag,
            )
        },
        LinkTypes::DeveloperCollectiveToTools => create_link_developer_collective_to_tools_answer(
            records,
            action,
            base_address,
            target_address,
            tag,
        ),
        LinkTypes::ToolUpdates => create_link_tool_updates_answer(
            records,
            action,
            base_address,
            target_address,
            tag,
        ),
        LinkTypes::ToolToTag => create_link_tool_to_tag_answer(
            records,
            action,
            base_address,
            target_address,
            tag,
        ),
        LinkTypes::AllAgents => create_link_all_agents_answer(
            anchors,
            action,
            base_address,
            target_address,
        ),
        LinkTypes::AllCurators => create_link_all_curators_answer(
            records,
            anchors,
            action,
            base_address,
            target_address,
        ),
        LinkTypes::AllDeveloperCollectives => create_link_all_developer_collectives_answer(
            records,
            anchors,
            action,
            base_address,
            target_address,
        ),
        LinkTypes::DeveloperCollectiveToOwner => create_link_developer_collective_to_owner_answer(
            records,
            action,
            base_address,
            target_address,
        ),
        LinkTypes::CuratorToDeveloperCollectives => {
            create_link_curator_to_developer_collectives_answer(
                records,
                action,
                base_address,
                target_address,
            )
        },
        LinkTypes::DeveloperCollectiveToCurators => {
            create_link_developer_collective_to_curators_answer(
                records,
                action,
                base_address,
                target_address,
            )
        },
        LinkTypes::CuratorToTools => create_link_curator_to_tools_answer(
            records,
            action,
            base_address,
            target_address,
        ),
        LinkTypes::ToolToCurators => create_link_tool_to_curators_answer(
            records,
            action,
            base_address,
            target_address,
        ),
    }
}

/// Runs the rule on a new edge of the kind `link_type`.
pub fn validate_create_link(
    store: &ContentStore,
    link_type: LinkTypes,
    action: &CreateLink,
    base_address: LinkableHash,
    target_address: LinkableHash,
    tag: &Vec<u8>,
) -> (answer: ValidationResult)
    ensures
        answer == create_link_answer(
            store@,
            store.spec_anchors(),
            link_type,
            *action,
            base_address,
            target_address,
            tag@,
        ),
{
    match link_type {
        LinkTypes::CuratorUpdates => validate_create_link_curator_updates(
            store,
            action,
            base_address,
            target_address,
            tag,
        ),
        LinkTypes::DeveloperCollectiveUpdates => validate_create_link_developer_collective_updates(
            store,
            action,
            base_address,
            target_address,
            tag,
        ),
        LinkTypes::DeveloperCollectiveToContributorPermissions => {
            validate_create_link_developer_collective_to_contributor_permissions(
                store,
                action,
                base_address,
                target_address,
                tag,
            )
        },
        LinkTypes::ContributorToContributorPermissions => {
            validate_create_link_contributor_to_contributor_permissions(
                store,
                action,
                base_address,
                target_address,
                tag,
            )
        },
        LinkTypes::DeveloperCollectiveToTools => {
            validate_create_link_developer_collective_to_tools(
                store,
                action,
                base_address,
                target_address,
                tag,
            )
        },
        LinkTypes::ToolUpdates => validate_create_link_tool_updates(
            store,
            action,
            base_address,
            target_address,
            tag,
        ),
        LinkTypes::ToolToTag => validate_create_link_tool_to_tag(
            store,
            action,
            base_address,
            target_address,
            tag,
        ),
        LinkTypes::AllAgents => validate_create_link_all_agents(
            store,
            action,
            base_address,
            target_address,
            tag,
        ),
        LinkTypes::AllCurators => validate_create_link_all_curators(
            store,
            action,
            base_address,
            target_address,
            tag,
        ),
        LinkTypes::AllDeveloperCollectives => validate_create_link_all_developer_collectives(
            store,
            action,
            base_address,
            target_address,
            tag,
        ),
        LinkTypes::DeveloperCollectiveToOwner => {
            validate_create_link_developer_collective_to_owner(
                store,
                action,
                base_address,
                target_address,
                tag,
            )
        },
        LinkTypes::CuratorToDeveloperCollectives => {
            validate_create_link_curator_to_developer_collectives(
                store,
                action,
                base_address,
                target_address,
                tag,
            )
        },
        LinkTypes::DeveloperCollectiveToCurators => {
            validate_create_link_developer_collective_to_curators(
                store,
                action,
                base_address,
                target_address,
                tag,
            )
        },
        LinkTypes::CuratorToTools => validate_create_link_curator_to_tools(
            store,
            action,
            base_address,
            target_address,
            tag,
        ),
        LinkTypes::ToolToCurators => validate_create_link_tool_to_curators(
            store,
            action,
            base_address,
            target_address,
            tag,
        ),
    }
}

/// The answer on the removal of an edge by someone who may remove it only
/// if they made it.
pub open spec fn own_link_answer(
    action: DeleteLink,
    original_action: CreateLink,
    reason: Reason,
) -> ValidationResult {
    if action.author != original_action.author {
        invalid(reason)
    } else {
        valid()
    }
}

/// The answer on the removal of an edge.
pub open spec fn delete_link_answer(
    records: Seq<Record>,
    link_type: LinkTypes,
    action: DeleteLink,
    original_action: CreateLink,
    base: LinkableHash,
    target: LinkableHash,
) -> ValidationResult {
    match link_type {
        LinkTypes::CuratorUpdates => invalid(Reason::CuratorUpdatesLinkDeleted),
        LinkTypes::DeveloperCollectiveUpdates => invalid(Reason::CollectiveUpdatesLinkDeleted),
        LinkTypes::DeveloperCollectiveToContributorPermissions => invalid(
            Reason::CollectiveToPermissionsLinkDeleted,
        ),
        LinkTypes::ContributorToContributorPermissions => invalid(
            Reason::ContributorToPermissionsLinkDeleted,
        ),
        LinkTypes::DeveloperCollectiveToTools => delete_link_developer_collective_to_tools_answer(
            records,
            action,
            original_action,
            base,
            target,
        ),
        LinkTypes::ToolUpdates => invalid(Reason::ToolUpdatesLinkDeleted),
        LinkTypes::ToolToTag => delete_link_tool_to_tag_answer(records, action, base),
        LinkTypes::AllAgents => invalid(Reason::AllAgentsLinkDeleted),
        LinkTypes::AllCurators => own_link_answer(
            action,
            original_action,
            Reason::AllCuratorsLinkDeleteByOther,
        ),
        LinkTypes::AllDeveloperCollectives => own_link_answer(
            action,
            original_action,
            Reason::AllCollectivesLinkDeleteByOther,
        ),
        LinkTypes::DeveloperCollectiveToOwner => own_link_answer(
            action,
            original_action,
            Reason::OwnerLinkDeleteByOther,
        ),
        LinkTypes::CuratorToDeveloperCollectives => own_link_answer(
            action,
            original_action,
            Reason::CuratorCollectiveLinkDeleteByOther,
        ),
        LinkTypes::DeveloperCollectiveToCurators => own_link_answer(
            action,
            original_action,
            Reason::CuratorCollectiveLinkDeleteByOther,
        ),
        LinkTypes::CuratorToTools => own_link_answer(
            action,
            original_action,
            Reason::CuratorToToolLinkDeleteByOther,
        ),
        LinkTypes::ToolToCurators => own_link_answer(
            action,
            original_action,
            Reason::ToolToCuratorLinkDeleteByOther,
        ),
    }
}

/// Runs the rule on the removal of an edge of the kind `link_type`.
pub fn validate_delete_link(
    store: &ContentStore,
    link_type: LinkTypes,
    action: &DeleteLink,
    original_action: &CreateLink,
    base: LinkableHash,
    target: LinkableHash,
    tag: &Vec<u8>,
) -> (answer: ValidationResult)
    ensures
        answer == delete_link_answer(store@, link_type, *action, *original_action, base, target),
{
    match link_type {
        LinkTypes::CuratorUpdates => validate_delete_link_curator_updates(
            store,
            action,
            original_action,
            base,
            target,
            tag,
        ),
        LinkTypes::DeveloperCollectiveUpdates => validate_delete_link_developer_collective_updates(
            store,
            action,
            original_action,
            base,
            target,
            tag,
        ),
        LinkTypes::DeveloperCollectiveToContributorPermissions => {
            validate_delete_link_developer_collective_to_contributor_permissions(
                store,
                action,
                original_action,
                base,
                target,
                tag,
            )
        },
        LinkTypes::ContributorToContributorPermissions => {
            validate_delete_link_contributor_to_contributor_permissions(
                store,
                action,
                original_action,
                base,
                target,
                tag,
            )
        },
        LinkTypes::DeveloperCollectiveToTools => {
            validate_delete_link_developer_collective_to_tools(
                store,
                action,
                original_action,
                base,
                target,
                tag,
            )
        },
        LinkTypes::ToolUpdates => validate_delete_link_tool_updates(
            store,
            action,
            original_action,
            base,
            target,
            tag,
        ),
        LinkTypes::ToolToTag => validate_delete_link_tool_to_tag(
            store,
            action,
            original_action,
            base,
            target,
            tag,
        ),
        LinkTypes::AllAgents => validate_delete_link_all_agents(
            store,
            action,
            original_action,
            base,
            target,
            tag,
        ),
        LinkTypes::AllCurators => validate_delete_link_all_curators(
            store,
            action,
            original_action,
            base,
            target,
            tag,
        ),
        LinkTypes::AllDeveloperCollectives => validate_delete_link_all_developer_collectives(
            store,
            action,
            original_action,
            base,
            target,
            tag,
        ),
        LinkTypes::DeveloperCollectiveToOwner => {
            validate_delete_link_developer_collective_to_owner(
                store,
                action,
                original_action,
                base,
                target,
                tag,
            )
        },
        LinkTypes::CuratorToDeveloperCollectives => {
            validate_delete_link_curator_to_developer_collectives(
                store,
                action,
                original_action,
                base,
                target,
                tag,
            )
        },
        LinkTypes::DeveloperCollectiveToCurators => {
            validate_delete_link_developer_collective_to_curators(
                store,
                action,
                original_action,
                base,
                target,
                tag,
            )
        },
        LinkTypes::CuratorToTools => validate_delete_link_curator_to_tools(
            store,
            action,
            original_action,
            base,
            target,
            tag,
        ),
        LinkTypes::ToolToCurators => validate_delete_link_tool_to_curators(
            store,
            action,
            original_action,
            base,
            target,
            tag,
        ),
    }
}

/// Why an entry can never stand in the place of another one, whoever puts
/// it there: it is of another kind, or it is a tool of another collective.
/// Nothing, where neither is so.
pub open spec fn structural_refusal(
    app_entry: EntryTypes,
    original_app_entry: EntryTypes,
) -> Option<Reason> {
    match (app_entry, original_app_entry) {
        (EntryTypes::Tool(tool), EntryTypes::Tool(original_tool)) => if tool.developer_collective
            != original_tool.developer_collective {
            Some(Reason::CollectiveChanged)
        } else {
            None
        },
        (EntryTypes::DeveloperCollective(_), EntryTypes::DeveloperCollective(_)) => None,
        (EntryTypes::Curator(_), EntryTypes::Curator(_)) => None,
        (EntryTypes::ContributorPermission(_), _) => Some(Reason::PermissionUpdated),
        (EntryTypes::ContributorPermissionClaim(_), _) => Some(Reason::ClaimUpdated),
        _ => Some(Reason::EntryKindChanged),
    }
}

fn check_structure(
    app_entry: &EntryTypes,
    original_app_entry: &EntryTypes,
) -> (refusal: Option<Reason>)
    ensures
        refusal == structural_refusal(*app_entry, *original_app_entry),
{
    match (app_entry, original_app_entry) {
        (EntryTypes::Tool(tool), EntryTypes::Tool(original_tool)) => {
            if tool.developer_collective != original_tool.developer_collective {
                Some(Reason::CollectiveChanged)
            } else {
                None
            }
        },
        (EntryTypes::DeveloperCollective(_), EntryTypes::DeveloperCollective(_)) => None,
        (EntryTypes::Curator(_), EntryTypes::Curator(_)) => None,
        (EntryTypes::ContributorPermission(_), _) => Some(Reason::PermissionUpdated),
        (EntryTypes::ContributorPermissionClaim(_), _) => Some(Reason::ClaimUpdated),
        _ => Some(Reason::EntryKindChanged),
    }
}

/// The answer on an update, where what it updates is read from the store.
///
/// A permission and a permission claim are never updated: for them nothing
/// is read. For any other entry the record that the update names has to be in
/// the store. Where that record carries an entry of this library that the new
/// entry can never stand in the place of, the update is refused for that,
/// whatever else is so. Otherwise the record has to be a step that carries an
/// entry, and an entry of this library; then the rule on updates decides.
pub open spec fn register_update_answer(
    records: Seq<Record>,
    original_action_hash: RevisionId,
    app_entry: EntryTypes,
    action: Update,
) -> ValidationResult {
    match app_entry {
        EntryTypes::ContributorPermission(_) => invalid(Reason::PermissionUpdated),
        EntryTypes::ContributorPermissionClaim(_) => invalid(Reason::ClaimUpdated),
        _ => match fetch(records, original_action_hash) {
            Err(e) => Err(e),
            Ok(original_record) => match original_record.entry {
                RecordEntry::Present(Entry::App(original_app_entry)) => match structural_refusal(
                    app_entry,
                    original_app_entry,
                ) {
                    Some(reason) => invalid(reason),
                    None => match original_record.action.spec_entry_creation() {
                        None => invalid(Reason::UpdateOfNonEntry),
                        Some(original_action) => update_entry_answer(
                            records,
                            action,
                            app_entry,
                            original_action,
                            original_app_entry,
                        ),
                    },
                },
                _ => match original_record.action.spec_entry_creation() {
                    None => invalid(Reason::UpdateOfNonEntry),
                    Some(_) => invalid(Reason::UpdatedKindDiffers),
                },
            },
        },
    }
}

/// Decides on an update as the keeper of the updated entry sees it, with
/// what it updates read from the store under `original_action_hash`.
pub fn validate_register_update(
    store: &ContentStore,
    original_action_hash: &RevisionId,
    app_entry: &EntryTypes,
    action: &Update,
) -> (answer: ValidationResult)
    ensures
        answer == register_update_answer(store@, *original_action_hash, *app_entry, *action),
{
    match app_entry {
        EntryTypes::ContributorPermission(_) => {
            return Ok(ValidateCallbackResult::Invalid(Reason::PermissionUpdated));
        },
        EntryTypes::ContributorPermissionClaim(_) => {
            return Ok(ValidateCallbackResult::Invalid(Reason::ClaimUpdated));
        },
        _ => {},
    }
    let original_record = store.must_get_valid_record(original_action_hash)?;
    let original_app_entry = match &original_record.entry {
        RecordEntry::Present(Entry::App(original_app_entry)) => original_app_entry,
        _ => {
            return match original_record.action.entry_creation() {
                Some(_) => Ok(ValidateCallbackResult::Invalid(Reason::UpdatedKindDiffers)),
                None => Ok(ValidateCallbackResult::Invalid(Reason::UpdateOfNonEntry)),
            };
        },
    };
    if let Some(reason) = check_structure(app_entry, original_app_entry) {
        return Ok(ValidateCallbackResult::Invalid(reason));
    }
    match original_record.action.entry_creation() {
        Some(original_action) => validate_update_entry(
            store,
            action,
            app_entry,
            &original_action,
            original_app_entry,
        ),
        None => Ok(ValidateCallbackResult::Invalid(Reason::UpdateOfNonEntry)),
    }
}

/// The answer on the new entry of an update, and on the record of an
/// update: the rule on updates comes first, so that what is never done is
/// refused as such whoever does it; what passes is then held to the rule on
/// new entries.
pub open spec fn store_update_answer(
    records: Seq<Record>,
    original_action_hash: RevisionId,
    app_entry: EntryTypes,
    action: Update,
) -> ValidationResult {
    match register_update_answer(records, original_action_hash, app_entry, action) {
        Ok(ValidateCallbackResult::Valid) => create_entry_answer(
            records,
            EntryCreationAction::Update(action),
            app_entry,
        ),
        refused => refused,
    }
}

fn validate_store_update(
    store: &ContentStore,
    original_action_hash: &RevisionId,
    app_entry: &EntryTypes,
    action: &Update,
) -> (answer: ValidationResult)
    ensures
        answer == store_update_answer(store@, *original_action_hash, *app_entry, *action),
{
    let result = validate_register_update(store, original_action_hash, app_entry, action)?;
    if !result.is_valid() {
        return Ok(result);
    }
    validate_create_entry(store, &EntryCreationAction::Update(*action), app_entry)
}

/// What reading an entry as one of the kinds of this library gives:
/// nothing, for an application entry of another kind; a failure, for what is
/// no application entry.
pub open spec fn spec_deserialize(entry: Entry) -> Result<Option<EntryTypes>, ValidationError> {
    match entry {
        Entry::App(app_entry) => Ok(Some(app_entry)),
        Entry::Foreign => Ok(None),
        _ => Err(ValidationError::Deserialize),
    }
}

/// Why an entry is never removed, whoever removes it: it is a permission or
/// a permission claim. Nothing, for any other entry.
pub open spec fn never_removed(entry: RecordEntry) -> Option<Reason> {
    match entry {
        RecordEntry::Present(Entry::App(EntryTypes::ContributorPermission(_))) => Some(
            Reason::PermissionDeleted,
        ),
        RecordEntry::Present(Entry::App(EntryTypes::ContributorPermissionClaim(_))) => Some(
            Reason::ClaimDeleted,
        ),
        _ => None,
    }
}

/// The answer on a removal, where what it removes is read from the store.
///
/// The record that the removal names has to be in the store. Where it
/// carries a permission or a permission claim, the removal is refused for
/// that, whatever else is so. Otherwise the record has to be a step that
/// carries an entry; what no application defines may go; an entry of this
/// library is held to the rule on removals of its kind.
pub open spec fn register_delete_answer(
    records: Seq<Record>,
    original_action_hash: RevisionId,
    action: Delete,
) -> ValidationResult {
    match fetch(records, original_action_hash) {
        Err(e) => Err(e),
        Ok(original_record) => match never_removed(original_record.entry) {
            Some(reason) => invalid(reason),
            None => match original_record.action.spec_entry_creation() {
                None => invalid(Reason::DeleteOfNonEntry),
                Some(original_action) => match original_action.spec_entry_type() {
                    EntryType::App { visibility } => match original_record.entry.spec_as_option() {
                        None => if visibility == EntryVisibility::Public {
                            invalid(Reason::DeletedPublicEntryMissing)
                        } else {
                            valid()
                        },
                        Some(entry) => match spec_deserialize(entry) {
                            Err(e) => Err(e),
                            Ok(None) => invalid(Reason::DeletedEntryUndefined),
                            Ok(Some(original_app_entry)) => delete_entry_answer(
                                records,
                                action,
                                original_action,
                                original_app_entry,
                            ),
                        },
                    },
                    _ => valid(),
                },
            },
        },
    }
}

/// Decides on a removal, with what it removes read from the store under
/// `original_action_hash`.
pub fn validate_register_delete(
    store: &ContentStore,
    original_action_hash: &RevisionId,
    action: &Delete,
) -> (answer: ValidationResult)
    ensures
        answer == register_delete_answer(store@, *original_action_hash, *action),
{
    let original_record = store.must_get_valid_record(original_action_hash)?;
    match &original_record.entry {
        RecordEntry::Present(Entry::App(EntryTypes::ContributorPermission(_))) => {
            return Ok(ValidateCallbackResult::Invalid(Reason::PermissionDeleted));
        },
        RecordEntry::Present(Entry::App(EntryTypes::ContributorPermissionClaim(_))) => {
            return Ok(ValidateCallbackResult::Invalid(Reason::ClaimDeleted));
        },
        _ => {},
    }
    let original_action = match original_record.action.entry_creation() {
        Some(step) => step,
        None => {
            return Ok(ValidateCallbackResult::Invalid(Reason::DeleteOfNonEntry));
        },
    };
    let visibility = match original_action.entry_type() {
        EntryType::App { visibility } => visibility,
        _ => {
            return Ok(ValidateCallbackResult::Valid);
        },
    };
    let entry = match original_record.entry.as_option() {
        Some(entry) => entry,
        None => {
            if visibility == EntryVisibility::Public {
                return Ok(ValidateCallbackResult::Invalid(Reason::DeletedPublicEntryMissing));
            } else {
                return Ok(ValidateCallbackResult::Valid);
            }
        },
    };
    match entry {
        Entry::App(original_app_entry) => validate_delete_entry(
            store,
            action,
            &original_action,
            original_app_entry,
        ),
        Entry::Foreign => Ok(ValidateCallbackResult::Invalid(Reason::DeletedEntryUndefined)),
        _ => Err(ValidationError::Deserialize),
    }
}

/// The answer on the record of the removal of an edge.
pub open spec fn store_delete_link_answer(
    records: Seq<Record>,
    original_action_hash: RevisionId,
    base_address: LinkableHash,
    action: DeleteLink,
) -> ValidationResult {
    match fetch(records, original_action_hash) {
        Err(e) => Err(e),
        Ok(record) => match record.action {
            Action::CreateLink(create_link) => match create_link.link_type {
                None => valid(),
                Some(link_type) => delete_link_answer(
                    records,
                    link_type,
                    action,
                    create_link,
                    base_address,
                    create_link.target_address,
                ),
            },
            _ => invalid(Reason::DeleteLinkOfNonLink),
        },
    }
}

fn validate_store_delete_link(
    store: &ContentStore,
    original_action_hash: &RevisionId,
    base_address: LinkableHash,
    action: &DeleteLink,
) -> (answer: ValidationResult)
    ensures
        answer == store_delete_link_answer(store@, *original_action_hash, base_address, *action),
{
    let record = store.must_get_valid_record(original_action_hash)?;
    let create_link = match &record.action {
        Action::CreateLink(create_link) => create_link,
        _ => {
            return Ok(ValidateCallbackResult::Invalid(Reason::DeleteLinkOfNonLink));
        },
    };
    let link_type = match create_link.link_type {
        Some(link_type) => link_type,
        None => {
            return Ok(ValidateCallbackResult::Valid);
        },
    };
    validate_delete_link(
        store,
        link_type,
        action,
        create_link,
        base_address,
        create_link.target_address,
        &create_link.tag,
    )
}

/// The answer on the step that introduces an agent.
pub open spec fn create_agent_answer(records: Seq<Record>, action: Create) -> ValidationResult {
    match fetch(records, action.prev_action) {
        Err(e) => Err(e),
        Ok(previous) => match previous.action {
            Action::AgentValidationPkg(_) => valid(),
            _ => invalid(Reason::AgentWithoutValidationPkg),
        },
    }
}

/// The answer on a proposed mutation.
pub open spec fn validate_answer(
    records: Seq<Record>,
    anchors: Anchors,
    op: FlatOp,
) -> ValidationResult {
    match op {
        FlatOp::StoreEntry(OpEntry::CreateEntry { app_entry, action }) => create_entry_answer(
            records,
            EntryCreationAction::Create(action),
            app_entry,
        ),
        FlatOp::StoreEntry(OpEntry::UpdateEntry { app_entry, action }) => store_update_answer(
            records,
            action.original_action_address,
            app_entry,
            action,
        ),
        FlatOp::StoreEntry(OpEntry::Other) => valid(),
        FlatOp::RegisterUpdate(
            OpUpdate::Entry { original_action, original_app_entry, app_entry, action },
        ) => update_entry_answer(records, action, app_entry, original_action, original_app_entry),
        FlatOp::RegisterUpdate(OpUpdate::Other) => valid(),
        FlatOp::RegisterDelete(
            OpDelete::Entry { original_action, original_app_entry, action },
        ) => delete_entry_answer(records, action, original_action, original_app_entry),
        FlatOp::RegisterDelete(OpDelete::Other) => valid(),
        FlatOp::RegisterCreateLink {
            link_type,
            base_address,
            target_address,
            tag,
            action,
        } => create_link_answer(
            records,
            anchors,
            link_type,
            action,
            base_address,
            target_address,
            tag@,
        ),
        FlatOp::RegisterDeleteLink {
            link_type,
            base_address,
            target_address,
            tag,
            original_action,
            action,
        } => delete_link_answer(
            records,
            link_type,
            action,
            original_action,
            base_address,
            target_address,
        ),
        FlatOp::StoreRecord(OpRecord::CreateEntry { app_entry, action }) => create_entry_answer(
            records,
            EntryCreationAction::Create(action),
            app_entry,
        ),
        FlatOp::StoreRecord(
            OpRecord::UpdateEntry { original_action_hash, app_entry, action },
        ) => store_update_answer(records, original_action_hash, app_entry, action),
        FlatOp::StoreRecord(
            OpRecord::DeleteEntry { original_action_hash, action },
        ) => register_delete_answer(records, original_action_hash, action),
        FlatOp::StoreRecord(
            OpRecord::CreateLink { base_address, target_address, tag, link_type, action },
        ) => create_link_answer(
            records,
            anchors,
            link_type,
            action,
            base_address,
            target_address,
            tag@,
        ),
        FlatOp::StoreRecord(
            OpRecord::DeleteLink { original_action_hash, base_address, action },
        ) => store_delete_link_answer(records, original_action_hash, base_address, action),
        FlatOp::StoreRecord(OpRecord::Other) => valid(),
        FlatOp::RegisterAgentActivity(OpActivity::CreateAgent { agent, action }) => {
            create_agent_answer(records, action)
        },
        FlatOp::RegisterAgentActivity(OpActivity::Other) => valid(),
    }
}

/// The check that a peer runs on itself before it joins: nothing is asked.
pub fn genesis_self_check() -> (answer: ValidationResult)
    ensures
        answer == valid(),
{
    Ok(ValidateCallbackResult::Valid)
}

/// Every agent may join, whatever proof it shows.
pub fn validate_agent_joining(
    _agent_pub_key: Principal,
    _membrane_proof: &Option<Vec<u8>>,
) -> (answer: ValidationResult)
    ensures
        answer == valid(),
{
    Ok(ValidateCallbackResult::Valid)
}

/// Decides on a proposed mutation.
///
/// The answer is one of three: the mutation is admitted; it is refused for
/// good, with the reason; or no verdict was reached. Where a record that the
/// rule has to read is not in the store, the failure names it, and the same
/// call can be made again once it is there. The answer depends on the
/// mutation and on what the store holds, and on nothing else.
///
/// An update is held to the rule on updates in each of its forms, before
/// anything else is asked of it: what is never done is refused as such,
/// whoever does it.
pub fn validate(store: &ContentStore, op: &FlatOp) -> (answer: ValidationResult)
    ensures
        answer == validate_answer(store@, store.spec_anchors(), *op),
{
    match op {
        FlatOp::StoreEntry(store_entry) => match store_entry {
            OpEntry::CreateEntry { app_entry, action } => validate_create_entry(
                store,
                &EntryCreationAction::Create(*action),
                app_entry,
            ),
            OpEntry::UpdateEntry { app_entry, action } => validate_store_update(
                store,
                &action.original_action_address,
                app_entry,
                action,
            ),
            OpEntry::Other => Ok(ValidateCallbackResult::Valid),
        },
        FlatOp::RegisterUpdate(update_entry) => match update_entry {
            OpUpdate::Entry {
                original_action,
                original_app_entry,
                app_entry,
                action,
            } => validate_update_entry(
                store,
                action,
                app_entry,
                original_action,
                original_app_entry,
            ),
            OpUpdate::Other => Ok(ValidateCallbackResult::Valid),
        },
        FlatOp::RegisterDelete(delete_entry) => match delete_entry {
            OpDelete::Entry { original_action, original_app_entry, action } => {
                validate_delete_entry(store, action, original_action, original_app_entry)
            },
            OpDelete::Other => Ok(ValidateCallbackResult::Valid),
        },
        FlatOp::RegisterCreateLink {
            link_type,
            base_address,
            target_address,
            tag,
            action,
        } => validate_create_link(store, *link_type, action, *base_address, *target_address, tag),
        FlatOp::RegisterDeleteLink {
            link_type,
            base_address,
            target_address,
            tag,
            original_action,
            action,
        } => validate_delete_link(
            store,
            *link_type,
            action,
            original_action,
            *base_address,
            *target_address,
            tag,
        ),
        FlatOp::StoreRecord(store_record) => match store_record {
            OpRecord::CreateEntry { app_entry, action } => validate_create_entry(
                store,
                &EntryCreationAction::Create(*action),
                app_entry,
            ),
            OpRecord::UpdateEntry {
                original_action_hash,
                app_entry,
                action,
            } => validate_store_update(store, original_action_hash, app_entry, action),
            OpRecord::DeleteEntry { original_action_hash, action } => validate_register_delete(
                store,
                original_action_hash,
                action,
            ),
            OpRecord::CreateLink {
                base_address,
                target_address,
                tag,
                link_type,
                action,
            } => validate_create_link(
                store,
                *link_type,
                action,
                *base_address,
                *target_address,
                tag,
            ),
            OpRecord::DeleteLink {
                original_action_hash,
                base_address,
                action,
            } => validate_store_delete_link(store, original_action_hash, *base_address, action),
            OpRecord::Other => Ok(ValidateCallbackResult::Valid),
        },
        FlatOp::RegisterAgentActivity(agent_activity) => match agent_activity {
            OpActivity::CreateAgent { agent, action } => {
                let previous_action = store.must_get_valid_record(&action.prev_action)?;
                match &previous_action.action {
                    Action::AgentValidationPkg(package) => validate_agent_joining(
                        *agent,
                        &package.membrane_proof,
                    ),
                    _ => Ok(ValidateCallbackResult::Invalid(Reason::AgentWithoutValidationPkg)),
                }
            },
            OpActivity::Other => Ok(ValidateCallbackResult::Valid),
        },
    }
}

} // verus!
