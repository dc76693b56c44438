//! What a rule answers.
//!
//! A rule either reaches a verdict, which is final, or fails: because a
//! record it has to read is not in the store yet, which a later run may mend,
//! or because what it found cannot be read as what the rule expects.

use crate::hash::{HashError, RevisionId};
use vstd::prelude::*;

verus! {

/// Why a mutation is refused.
#[derive(Clone, Copy, Debug, PartialEq, Eq, Structural)]
pub enum Reason {
    /// The tag of an edge is not the wire form of a revision identifier.
    TagNotActionHash(HashError),
    /// The tag of an edge is not the wire form of a principal.
    TagNotAgentKey(HashError),
    /// A curator entry is updated by someone who did not create it.
    CuratorUpdateByOther,
    /// A curator entry is deleted by someone who did not create it.
    CuratorDeleteByOther,
    /// An update edge of a curator is made by someone who did not create the
    /// curator.
    CuratorUpdateLinkByOther,
    /// An update edge of a curator is removed.
    CuratorUpdatesLinkDeleted,
    /// An edge of the list of all curators does not start at its anchor.
    NotFromAllCuratorsAnchor,
    /// An edge of the list of all curators is made by someone who did not
    /// create the curator.
    AllCuratorsLinkByOther,
    /// An edge of the list of all curators is removed by someone who did not
    /// make it.
    AllCuratorsLinkDeleteByOther,
    /// The name of a collective is longer than allowed.
    NameTooLong,
    /// The icon of a collective is longer than allowed.
    IconTooLarge,
    /// The description of a collective is longer than allowed.
    DescriptionTooLong,
    /// The website of a collective is longer than allowed.
    WebsiteTooLong,
    /// The contact information of a collective is longer than allowed.
    ContactTooLong,
    /// The metadata of a collective is longer than allowed.
    MetaDataTooLong,
    /// A collective is updated by someone who did not create it.
    CollectiveUpdateByOther,
    /// A collective is deleted by someone who did not create it.
    CollectiveDeleteByOther,
    /// An update edge of a collective is made by someone who did not create
    /// the collective.
    CollectiveUpdateLinkByOther,
    /// An update edge of a collective is removed.
    CollectiveUpdatesLinkDeleted,
    /// An edge of the list of all collectives does not start at its anchor.
    NotFromAllCollectivesAnchor,
    /// An edge of the list of all collectives is made by someone who did not
    /// create the collective.
    AllCollectivesLinkByOther,
    /// An edge of the list of all collectives is removed by someone who did
    /// not make it.
    AllCollectivesLinkDeleteByOther,
    /// An edge from a collective to its owner is made by someone else than
    /// the principal it points to.
    OwnerLinkByOther,
    /// An edge from a collective to its owner is removed by someone who did
    /// not make it.
    OwnerLinkDeleteByOther,
    /// A permission is issued by someone who did not create the collective.
    PermissionIssuedByOther,
    /// A permission is updated.
    PermissionUpdated,
    /// A permission is deleted.
    PermissionDeleted,
    /// An edge from a collective to a permission is made by someone who did
    /// not create the collective.
    PermissionLinkByOther,
    /// The tag of an edge from a collective to a permission names another
    /// principal than the permission does.
    TagWrongAgent,
    /// An edge from a collective points to a permission for another collective.
    PermissionOfOtherCollective,
    /// An edge from a collective to a permission is removed.
    CollectiveToPermissionsLinkDeleted,
    /// An edge from a contributor to a permission is made by someone who did
    /// not issue the permission.
    ContributorLinkByOther,
    /// The tag of an edge from a contributor to a permission names another
    /// collective than the permission does.
    TagWrongCollective,
    /// An edge from a contributor points to a permission for another principal.
    PermissionOfOtherAgent,
    /// An edge from a contributor to a permission is removed.
    ContributorToPermissionsLinkDeleted,
    /// A permission claim is updated.
    ClaimUpdated,
    /// A permission claim is deleted.
    ClaimDeleted,
    /// An update of a tool names another collective than the tool it updates.
    CollectiveChanged,
    /// A tool, or an edge from a collective to a tool, is removed by someone
    /// who neither made it nor created the collective.
    NotCollectiveCreatorNorAuthor,
    /// An edge from a collective points to a tool of another collective.
    ToolOfOtherCollective,
    /// An update edge of a tool is removed.
    ToolUpdatesLinkDeleted,
    /// An edge from a tool to a tag does not point to content.
    TargetNotEntryHash,
    /// The record before the removal of an edge from a tool to a tag holds no
    /// permission claim.
    PreviousActionNotClaim,
    /// No permission is named: what is named is the collective itself, which
    /// the actor did not create, or a record that holds no permission.
    NoPermission,
    /// The permission was issued to another principal.
    WrongAgent,
    /// The permission was issued for another collective.
    WrongCollective,
    /// The permission ended before the mutation was made.
    Expired,
    /// An edge from a curator to a collective is made by someone who did not
    /// create the curator.
    CuratorToCollectiveLinkByOther,
    /// An edge from a collective to a curator is made by someone who did not
    /// create the curator.
    CollectiveToCuratorLinkByOther,
    /// An edge between a curator and a collective is removed by someone who
    /// did not make it.
    CuratorCollectiveLinkDeleteByOther,
    /// An edge from a curator to a tool is made by someone who did not create
    /// the curator.
    CuratorToToolLinkByOther,
    /// An edge from a curator to a tool is removed by someone who did not
    /// make it.
    CuratorToToolLinkDeleteByOther,
    /// An edge from a tool to a curator is made by someone who did not create
    /// the curator.
    ToolToCuratorLinkByOther,
    /// An edge from a tool to a curator is removed by someone who did not
    /// make it.
    ToolToCuratorLinkDeleteByOther,
    /// An edge of the list of all agents does not start at its anchor.
    NotFromAllAgentsAnchor,
    /// An edge of the list of all agents points to someone else than its maker.
    AllAgentsLinkToOther,
    /// An edge of the list of all agents is removed.
    AllAgentsLinkDeleted,
    /// An update holds another kind of entry than the entry it updates.
    EntryKindChanged,
    /// An update refers to a record that neither created nor updated an entry.
    UpdateOfNonEntry,
    /// The record that an update refers to carries no entry of this library.
    UpdatedKindDiffers,
    /// A delete refers to a record that neither created nor updated an entry.
    DeleteOfNonEntry,
    /// The record of a deleted public entry holds no entry.
    DeletedPublicEntryMissing,
    /// The deleted entry is of no kind that this library defines.
    DeletedEntryUndefined,
    /// The removal of an edge refers to a record that made no edge.
    DeleteLinkOfNonLink,
    /// The record before the one that introduces an agent is no agent
    /// validation package.
    AgentWithoutValidationPkg,
}

/// The verdict of a rule on a mutation.
#[derive(Clone, Copy, Debug, PartialEq, Eq, Structural)]
pub enum ValidateCallbackResult {
    /// The mutation is admitted.
    Valid,
    /// The mutation is refused for good.
    Invalid(Reason),
}

/// What a rule found in the store that it could not read as expected.
#[derive(Clone, Copy, Debug, PartialEq, Eq, Structural)]
pub enum GuestError {
    /// An end of an edge that has to name a revision names something else.
    NoActionHash,
    /// The start of an existing edge from a collective to a tool names no
    /// revision.
    BaseNotActionHash,
    /// The start of an edge that has to name a principal names something else.
    NoAgentAsBase,
    /// The end of an edge that has to name a principal names something else.
    NoAgentKey,
    /// The end of an edge of the list of all agents names no principal.
    TargetNotAgentKey,
    /// The start of an edge that has to name content names something else.
    BaseNotEntryHash,
    /// A record at an end of an edge carries no entry.
    NoEntry,
    /// The record of the collective that an entry depends on carries no entry.
    DependantNoEntry,
    /// The record that a permission claim names carries no entry.
    ClaimWithoutPermission,
    /// The record at the start of an update edge of a curator carries no entry.
    CuratorBaseNoEntry,
    /// The record at the end of an update edge of a curator carries no entry.
    CuratorTargetNoEntry,
    /// The record at the start of an update edge of a collective carries no
    /// entry.
    CollectiveBaseNoEntry,
    /// The record at the end of an update edge of a collective carries no
    /// entry.
    CollectiveTargetNoEntry,
    /// The record at the end of an edge of the list of all curators carries
    /// no entry.
    NoCuratorEntry,
    /// A record that is to be removed is not in the store.
    NotFound,
    /// The record of a tool that is to be removed carries no entry.
    ToolRecordNoEntry,
    /// The first record of a tool that is to be updated is not shown.
    OriginalToolMissing,
    /// The record at the end of an edge of the list of all collectives
    /// carries no entry.
    NoCollectiveEntry,
}

/// Why a rule reached no verdict.
#[derive(Clone, Copy, Debug, PartialEq, Eq)]
pub enum ValidationError {
    /// A record that the rule has to read is not in the store. The rule can
    /// be run again once the record is there.
    DependencyMissing(RevisionId),
    /// The store holds something else than the rule expects.
    Guest(GuestError),
    /// A record holds an entry of another kind than the rule reads it as.
    Deserialize,
}

/// The answer of a rule.
pub type ValidationResult = Result<ValidateCallbackResult, ValidationError>;

/// The answer "admitted".
pub open spec fn valid() -> ValidationResult {
    Ok(ValidateCallbackResult::Valid)
}

/// The answer "refused", with the reason.
pub open spec fn invalid(reason: Reason) -> ValidationResult {
    Ok(ValidateCallbackResult::Invalid(reason))
}

/// The failure on a record that is not in the store.
pub open spec fn missing(id: RevisionId) -> ValidationResult {
    Err(ValidationError::DependencyMissing(id))
}

/// The failure on something that cannot be read as expected.
pub open spec fn guest(error: GuestError) -> ValidationResult {
    Err(ValidationError::Guest(error))
}

impl ValidateCallbackResult {
    /// Whether the mutation is admitted.
    pub fn is_valid(&self) -> (admitted: bool)
        ensures
            admitted == (*self == ValidateCallbackResult::Valid),
    {
        match self {
            ValidateCallbackResult::Valid => true,
            ValidateCallbackResult::Invalid(_) => false,
        }
    }
}

impl ValidationError {
    /// Whether a later run of the same rule on the same mutation can end
    /// otherwise: only a record that is still under way can change the answer.
    pub fn is_retryable(&self) -> (again: bool)
        ensures
            again == (*self is DependencyMissing),
    {
        match self {
            ValidationError::DependencyMissing(_) => true,
            _ => false,
        }
    }
}

/// What stands in front of the reason for which a tag was not accepted as a
/// revision identifier.
pub open spec fn action_tag_preamble() -> Seq<char> {
    "Link tag does not contain a valid action hash. Conversion failed with error: "@
}

/// What stands in front of the reason for which a tag was not accepted as a
/// principal.
pub open spec fn agent_tag_preamble() -> Seq<char> {
    "Link tag does not contain a valid agent public key. Conversion failed with error: "@
}

impl Reason {
    pub open spec fn spec_message(self) -> Seq<char> {
        match self {
            Reason::TagNotActionHash(e) => action_tag_preamble() + e.spec_message(),
            Reason::TagNotAgentKey(e) => agent_tag_preamble() + e.spec_message(),
            Reason::CuratorUpdateByOther => "Curator entries can only be updated by the agent that created the entry."@,
            Reason::CuratorDeleteByOther => "Curator entries can only be deleted by the agent that created the entry."@,
            Reason::CuratorUpdateLinkByOther => "Links to curator entry updates can only be created by the agent that created the curator entry."@,
            Reason::CuratorUpdatesLinkDeleted => "CuratorUpdates links cannot be deleted"@,
            Reason::NotFromAllCuratorsAnchor => "AllCurators link is not pointing away from the all_curators anchor."@,
            Reason::AllCuratorsLinkByOther => "Links from the all_curators anchor to a Curator entry can only be created by the agent that created the Curator entry."@,
            Reason::AllCuratorsLinkDeleteByOther => "Links from the all_curators anchor to a Curator entry can only be deleted by the agent that created the link and therefore the Curator entry."@,
            Reason::NameTooLong => "Name may be no longer than 50 characters."@,
            Reason::IconTooLarge => "Icon is too large. Must be smaller than 500KB."@,
            Reason::DescriptionTooLong => "Description may be no longer than 1200 characters."@,
            Reason::WebsiteTooLong => "Website may be no longer than 500 characters."@,
            Reason::ContactTooLong => "Contact information may be no longer than 300 characters."@,
            Reason::MetaDataTooLong => "Metadata may be no longer than 5000000 characters."@,
            Reason::CollectiveUpdateByOther => "Developer collective entry can only be updated by the creator of the collective."@,
            Reason::CollectiveDeleteByOther => "Developer collective entry can only be deleted by the creator of the collective."@,
            Reason::CollectiveUpdateLinkByOther => "Links to DeveloperCollective entry updates can only be created by the agent that created the DeveloperCollective entry."@,
            Reason::CollectiveUpdatesLinkDeleted => "DeveloperCollectiveUpdates links cannot be deleted"@,
            Reason::NotFromAllCollectivesAnchor => "AllDeveloperCollectives link is not pointing away from the all_developer_collectives anchor."@,
            Reason::AllCollectivesLinkByOther => "Links from the all_developer_collectives anchor to a DeveloperCollective entry can only be created by the agent that created the DeveloperCollective entry."@,
            Reason::AllCollectivesLinkDeleteByOther => "Links from the all_developer_collectives anchor to a DeveloperCollective entry can only be deleted by the agent that created the link and therefore the DeveloperCollective entry."@,
            Reason::OwnerLinkByOther => "Only the creator of a DeveloperCollective can create a DeveloperCollectiveToOwner link from that DeveloperCollective"@,
            Reason::OwnerLinkDeleteByOther => "Only the creator of a DeveloperCollectiveToOwner link can delete that link."@,
            Reason::PermissionIssuedByOther => "Only the creator of the developer collective can issue contributor permissions for it."@,
            Reason::PermissionUpdated => "Contributor Permissions cannot be updated"@,
            Reason::PermissionDeleted => "Contributor Permissions cannot be deleted"@,
            Reason::PermissionLinkByOther => "Only the creator of the developer collective is allowed to create links to contributor permissions."@,
            Reason::TagWrongAgent => "Link tag contains the wrong agent public key."@,
            Reason::PermissionOfOtherCollective => "Links from developer collectives can only point to contributor permissions for that same developer collective"@,
            Reason::CollectiveToPermissionsLinkDeleted => "DeveloperCollectiveToContributorPermissions links cannot be deleted"@,
            Reason::ContributorLinkByOther => "Only the creator of the developer collective is allowed to create links from contributor agents to their permissions."@,
            Reason::TagWrongCollective => "Link tag does not contain the action hash of the DeveloperCollective for which the ContributorPermission is for."@,
            Reason::PermissionOfOtherAgent => "Links from agents to contributor permissions can only be created from agents the permission refers to."@,
            Reason::ContributorToPermissionsLinkDeleted => "ContributorToContributorPermissions links cannot be deleted"@,
            Reason::ClaimUpdated => "ContributorPermissionClaims cannot be updated"@,
            Reason::ClaimDeleted => "ContributorPermissionClaims cannot be deleted"@,
            Reason::CollectiveChanged => "The developer_collective field may not be updated."@,
            Reason::NotCollectiveCreatorNorAuthor => "Only the creator of the DeveloperCollective entry or the creator of the link is allowed to delete a link from a DeveloperCollective entry to a Tool entry"@,
            Reason::ToolOfOtherCollective => "Link from a DeveloperCollective entry to a Tool can only be created if the Tool references that same DeveloperCollective entry in the developer_collective field."@,
            Reason::ToolUpdatesLinkDeleted => "ToolUpdates links cannot be deleted"@,
            Reason::TargetNotEntryHash => "Link target is not an entry hash"@,
            Reason::PreviousActionNotClaim => "Previous action is not a ContributorPermissionClaim Create action"@,
            Reason::NoPermission => "No permission found: what is named is neither a collective of the agent nor a ContributorPermission."@,
            Reason::WrongAgent => "ContributorPermission is for the wrong agent."@,
            Reason::WrongCollective => "ContributorPermission is for the wrong DeveloperCollective."@,
            Reason::Expired => "ContributorPermission has expired."@,
            Reason::CuratorToCollectiveLinkByOther => "Only the creator of a Curator entry can create links from that entry to a DeveloperCollective entry"@,
            Reason::CollectiveToCuratorLinkByOther => "Only the creator of a Curator entry can create a link from a DeveloperCollective entry to that Curator entry."@,
            Reason::CuratorCollectiveLinkDeleteByOther => "Only the creator of a link from a Curator to a DeveloperCollective can delete that link."@,
            Reason::CuratorToToolLinkByOther => "Only the creator of a Curator entry can create links to Tool entries"@,
            Reason::CuratorToToolLinkDeleteByOther => "Only the creator of a link from a Curator to a Tool entry can delete that link."@,
            Reason::ToolToCuratorLinkByOther => "Only the creator of a Curator entry can create links from Tool entries to that Curator entry"@,
            Reason::ToolToCuratorLinkDeleteByOther => "Only the creator of a link from a Tool entry to a Curator entry can delete that link."@,
            Reason::NotFromAllAgentsAnchor => "AllAgents link is not pointing away from the all_agents anchor."@,
            Reason::AllAgentsLinkToOther => "Links from the all_agents anchor can only point to the agent public key of the agent that creates the link."@,
            Reason::AllAgentsLinkDeleted => "Links from the all_agents anchor cannot be deleted."@,
            Reason::EntryKindChanged => "Original and updated entry types must be the same"@,
            Reason::UpdateOfNonEntry => "Original action for an update must be a Create or Update action"@,
            Reason::UpdatedKindDiffers => "The updated entry type must be the same as the original entry type"@,
            Reason::DeleteOfNonEntry => "Original action for a delete must be a Create or Update action"@,
            Reason::DeletedPublicEntryMissing => "Original record for a delete of a public entry must contain an entry"@,
            Reason::DeletedEntryUndefined => "Original app entry must be one of the defined entry types for this zome"@,
            Reason::DeleteLinkOfNonLink => "The action that a DeleteLink deletes must be a CreateLink"@,
            Reason::AgentWithoutValidationPkg => "The previous action for a `CreateAgent` action must be an `AgentValidationPkg`"@,
        }
    }

    /// A sentence for people.
    pub fn message(&self) -> (text: String)
        ensures
            text@ == self.spec_message(),
    {
        match self {
            Reason::TagNotActionHash(e) => {
                let head =
                    "Link tag does not contain a valid action hash. Conversion failed with error: ";
                head.to_string().concat(e.message().as_str())
            },
            Reason::TagNotAgentKey(e) => {
                let head =
                    "Link tag does not contain a valid agent public key. Conversion failed with error: ";
                head.to_string().concat(e.message().as_str())
            },
            Reason::CuratorUpdateByOther => "Curator entries can only be updated by the agent that created the entry.".to_string(),
            Reason::CuratorDeleteByOther => "Curator entries can only be deleted by the agent that created the entry.".to_string(),
            Reason::CuratorUpdateLinkByOther => "Links to curator entry updates can only be created by the agent that created the curator entry.".to_string(),
            Reason::CuratorUpdatesLinkDeleted => "CuratorUpdates links cannot be deleted".to_string(),
            Reason::NotFromAllCuratorsAnchor => "AllCurators link is not pointing away from the all_curators anchor.".to_string(),
            Reason::AllCuratorsLinkByOther => "Links from the all_curators anchor to a Curator entry can only be created by the agent that created the Curator entry.".to_string(),
            Reason::AllCuratorsLinkDeleteByOther => "Links from the all_curators anchor to a Curator entry can only be deleted by the agent that created the link and therefore the Curator entry.".to_string(),
            Reason::NameTooLong => "Name may be no longer than 50 characters.".to_string(),
            Reason::IconTooLarge => "Icon is too large. Must be smaller than 500KB.".to_string(),
            Reason::DescriptionTooLong => "Description may be no longer than 1200 characters.".to_string(),
            Reason::WebsiteTooLong => "Website may be no longer than 500 characters.".to_string(),
            Reason::ContactTooLong => "Contact information may be no longer than 300 characters.".to_string(),
            Reason::MetaDataTooLong => "Metadata may be no longer than 5000000 characters.".to_string(),
            Reason::CollectiveUpdateByOther => "Developer collective entry can only be updated by the creator of the collective.".to_string(),
            Reason::CollectiveDeleteByOther => "Developer collective entry can only be deleted by the creator of the collective.".to_string(),
            Reason::CollectiveUpdateLinkByOther => "Links to DeveloperCollective entry updates can only be created by the agent that created the DeveloperCollective entry.".to_string(),
            Reason::CollectiveUpdatesLinkDeleted => "DeveloperCollectiveUpdates links cannot be deleted".to_string(),
            Reason::NotFromAllCollectivesAnchor => "AllDeveloperCollectives link is not pointing away from the all_developer_collectives anchor.".to_string(),
            Reason::AllCollectivesLinkByOther => "Links from the all_developer_collectives anchor to a DeveloperCollective entry can only be created by the agent that created the DeveloperCollective entry.".to_string(),
            Reason::AllCollectivesLinkDeleteByOther => "Links from the all_developer_collectives anchor to a DeveloperCollective entry can only be deleted by the agent that created the link and therefore the DeveloperCollective entry.".to_string(),
            Reason::OwnerLinkByOther => "Only the creator of a DeveloperCollective can create a DeveloperCollectiveToOwner link from that DeveloperCollective".to_string(),
            Reason::OwnerLinkDeleteByOther => "Only the creator of a DeveloperCollectiveToOwner link can delete that link.".to_string(),
            Reason::PermissionIssuedByOther => "Only the creator of the developer collective can issue contributor permissions for it.".to_string(),
            Reason::PermissionUpdated => "Contributor Permissions cannot be updated".to_string(),
            Reason::PermissionDeleted => "Contributor Permissions cannot be deleted".to_string(),
            Reason::PermissionLinkByOther => "Only the creator of the developer collective is allowed to create links to contributor permissions.".to_string(),
            Reason::TagWrongAgent => "Link tag contains the wrong agent public key.".to_string(),
            Reason::PermissionOfOtherCollective => "Links from developer collectives can only point to contributor permissions for that same developer collective".to_string(),
            Reason::CollectiveToPermissionsLinkDeleted => "DeveloperCollectiveToContributorPermissions links cannot be deleted".to_string(),
            Reason::ContributorLinkByOther => "Only the creator of the developer collective is allowed to create links from contributor agents to their permissions.".to_string(),
            Reason::TagWrongCollective => "Link tag does not contain the action hash of the DeveloperCollective for which the ContributorPermission is for.".to_string(),
            Reason::PermissionOfOtherAgent => "Links from agents to contributor permissions can only be created from agents the permission refers to.".to_string(),
            Reason::ContributorToPermissionsLinkDeleted => "ContributorToContributorPermissions links cannot be deleted".to_string(),
            Reason::ClaimUpdated => "ContributorPermissionClaims cannot be updated".to_string(),
            Reason::ClaimDeleted => "ContributorPermissionClaims cannot be deleted".to_string(),
            Reason::CollectiveChanged => "The developer_collective field may not be updated.".to_string(),
            Reason::NotCollectiveCreatorNorAuthor => "Only the creator of the DeveloperCollective entry or the creator of the link is allowed to delete a link from a DeveloperCollective entry to a Tool entry".to_string(),
            Reason::ToolOfOtherCollective => "Link from a DeveloperCollective entry to a Tool can only be created if the Tool references that same DeveloperCollective entry in the developer_collective field.".to_string(),
            Reason::ToolUpdatesLinkDeleted => "ToolUpdates links cannot be deleted".to_string(),
            Reason::TargetNotEntryHash => "Link target is not an entry hash".to_string(),
            Reason::PreviousActionNotClaim => "Previous action is not a ContributorPermissionClaim Create action".to_string(),
            Reason::NoPermission => "No permission found: what is named is neither a collective of the agent nor a ContributorPermission.".to_string(),
            Reason::WrongAgent => "ContributorPermission is for the wrong agent.".to_string(),
            Reason::WrongCollective => "ContributorPermission is for the wrong DeveloperCollective.".to_string(),
            Reason::Expired => "ContributorPermission has expired.".to_string(),
            Reason::CuratorToCollectiveLinkByOther => "Only the creator of a Curator entry can create links from that entry to a DeveloperCollective entry".to_string(),
            Reason::CollectiveToCuratorLinkByOther => "Only the creator of a Curator entry can create a link from a DeveloperCollective entry to that Curator entry.".to_string(),
            Reason::CuratorCollectiveLinkDeleteByOther => "Only the creator of a link from a Curator to a DeveloperCollective can delete that link.".to_string(),
            Reason::CuratorToToolLinkByOther => "Only the creator of a Curator entry can create links to Tool entries".to_string(),
            Reason::CuratorToToolLinkDeleteByOther => "Only the creator of a link from a Curator to a Tool entry can delete that link.".to_string(),
            Reason::ToolToCuratorLinkByOther => "Only the creator of a Curator entry can create links from Tool entries to that Curator entry".to_string(),
            Reason::ToolToCuratorLinkDeleteByOther => "Only the creator of a link from a Tool entry to a Curator entry can delete that link.".to_string(),
            Reason::NotFromAllAgentsAnchor => "AllAgents link is not pointing away from the all_agents anchor.".to_string(),
            Reason::AllAgentsLinkToOther => "Links from the all_agents anchor can only point to the agent public key of the agent that creates the link.".to_string(),
            Reason::AllAgentsLinkDeleted => "Links from the all_agents anchor cannot be deleted.".to_string(),
            Reason::EntryKindChanged => "Original and updated entry types must be the same".to_string(),
            Reason::UpdateOfNonEntry => "Original action for an update must be a Create or Update action".to_string(),
            Reason::UpdatedKindDiffers => "The updated entry type must be the same as the original entry type".to_string(),
            Reason::DeleteOfNonEntry => "Original action for a delete must be a Create or Update action".to_string(),
            Reason::DeletedPublicEntryMissing => "Original record for a delete of a public entry must contain an entry".to_string(),
            Reason::DeletedEntryUndefined => "Original app entry must be one of the defined entry types for this zome".to_string(),
            Reason::DeleteLinkOfNonLink => "The action that a DeleteLink deletes must be a CreateLink".to_string(),
            Reason::AgentWithoutValidationPkg => "The previous action for a `CreateAgent` action must be an `AgentValidationPkg`".to_string(),
        }
    }
}

impl GuestError {
    pub open spec fn spec_message(self) -> Seq<char> {
        match self {
            GuestError::NoActionHash => "No action hash associated with link"@,
            GuestError::BaseNotActionHash => "Link base is not an action hash. This link should never have passed validation in the first place!"@,
            GuestError::NoAgentAsBase => "No agent hash as link base."@,
            GuestError::NoAgentKey => "No agent public key associated with link"@,
            GuestError::TargetNotAgentKey => "Link target is not an agent public key"@,
            GuestError::BaseNotEntryHash => "Base address is not an entry hash"@,
            GuestError::NoEntry => "Linked action must reference an entry"@,
            GuestError::DependantNoEntry => "Dependant action must be accompanied by an entry"@,
            GuestError::ClaimWithoutPermission => "permission_hash must point to a valid ContributorPermission entry"@,
            GuestError::CuratorBaseNoEntry => "Link base of a link to a Curator update must be Curator entry"@,
            GuestError::CuratorTargetNoEntry => "Link target of a link to a Curator update must be a Curator entry"@,
            GuestError::CollectiveBaseNoEntry => "Link base must be DeveloperCollective entry"@,
            GuestError::CollectiveTargetNoEntry => "Link target must be DeveloperCollective entry"@,
            GuestError::NoCuratorEntry => "Linked action must reference a Curator entry"@,
            GuestError::NotFound => "Record not found"@,
            GuestError::ToolRecordNoEntry => "Tool record has no entry"@,
            GuestError::OriginalToolMissing => "Failed to get original Tool record"@,
            GuestError::NoCollectiveEntry => "Linked action must reference a DeveloperCollective entry"@,
        }
    }

    /// A sentence for people.
    pub fn message(&self) -> (text: String)
        ensures
            text@ == self.spec_message(),
    {
        match self {
            GuestError::NoActionHash => "No action hash associated with link".to_string(),
            GuestError::BaseNotActionHash => "Link base is not an action hash. This link should never have passed validation in the first place!".to_string(),
            GuestError::NoAgentAsBase => "No agent hash as link base.".to_string(),
            GuestError::NoAgentKey => "No agent public key associated with link".to_string(),
            GuestError::TargetNotAgentKey => "Link target is not an agent public key".to_string(),
            GuestError::BaseNotEntryHash => "Base address is not an entry hash".to_string(),
            GuestError::NoEntry => "Linked action must reference an entry".to_string(),
            GuestError::DependantNoEntry => "Dependant action must be accompanied by an entry".to_string(),
            GuestError::ClaimWithoutPermission => "permission_hash must point to a valid ContributorPermission entry".to_string(),
            GuestError::CuratorBaseNoEntry => "Link base of a link to a Curator update must be Curator entry".to_string(),
            GuestError::CuratorTargetNoEntry => "Link target of a link to a Curator update must be a Curator entry".to_string(),
            GuestError::CollectiveBaseNoEntry => "Link base must be DeveloperCollective entry".to_string(),
            GuestError::CollectiveTargetNoEntry => "Link target must be DeveloperCollective entry".to_string(),
            GuestError::NoCuratorEntry => "Linked action must reference a Curator entry".to_string(),
            GuestError::NotFound => "Record not found".to_string(),
            GuestError::ToolRecordNoEntry => "Tool record has no entry".to_string(),
            GuestError::OriginalToolMissing => "Failed to get original Tool record".to_string(),
            GuestError::NoCollectiveEntry => "Linked action must reference a DeveloperCollective entry".to_string(),
        }
    }
}

/// The kinds of failure of a mutation.
#[derive(Clone, Copy, Debug, PartialEq, Eq, Structural, Hash)]
pub enum ErrorClass {
    /// A record that has to be read is not in the store yet. The mutation
    /// can be held against the rules again later; it is not refused.
    DependencyMissing,
    /// Something is not of the form that it has to have: a tag names
    /// nothing, a field is too long, an end of an edge or a record is of the
    /// wrong kind.
    MalformedInput,
    /// The actor may not do what it does: it is not the author that the
    /// rule asks for, it holds no permission, or the permission is for someone
    /// else, for something else, or has ended.
    AuthorizationDenied,
    /// What is done is never done, whoever does it: something that is for
    /// good is changed or removed.
    StructuralViolation,
}

impl Reason {
    /// Of which kind the reason is.
    pub open spec fn spec_class(self) -> ErrorClass {
        match self {
            Reason::TagNotActionHash(_) | Reason::TagNotAgentKey(_) => ErrorClass::MalformedInput,
            Reason::NotFromAllCuratorsAnchor
            | Reason::NameTooLong
            | Reason::IconTooLarge
            | Reason::DescriptionTooLong
            | Reason::WebsiteTooLong
            | Reason::ContactTooLong
            | Reason::MetaDataTooLong
            | Reason::NotFromAllCollectivesAnchor
            | Reason::TargetNotEntryHash
            | Reason::NotFromAllAgentsAnchor
            | Reason::DeletedPublicEntryMissing
            | Reason::DeletedEntryUndefined => ErrorClass::MalformedInput,
            Reason::CuratorUpdatesLinkDeleted
            | Reason::CollectiveUpdatesLinkDeleted
            | Reason::PermissionUpdated
            | Reason::PermissionDeleted
            | Reason::CollectiveToPermissionsLinkDeleted
            | Reason::ContributorToPermissionsLinkDeleted
            | Reason::ClaimUpdated
            | Reason::ClaimDeleted
            | Reason::CollectiveChanged
            | Reason::ToolUpdatesLinkDeleted
            | Reason::AllAgentsLinkDeleted
            | Reason::EntryKindChanged
            | Reason::UpdateOfNonEntry
            | Reason::UpdatedKindDiffers
            | Reason::DeleteOfNonEntry
            | Reason::DeleteLinkOfNonLink
            | Reason::AgentWithoutValidationPkg => ErrorClass::StructuralViolation,
            Reason::CuratorUpdateByOther
            | Reason::CuratorDeleteByOther
            | Reason::CuratorUpdateLinkByOther
            | Reason::AllCuratorsLinkByOther
            | Reason::AllCuratorsLinkDeleteByOther
            | Reason::CollectiveUpdateByOther
            | Reason::CollectiveDeleteByOther
            | Reason::CollectiveUpdateLinkByOther
            | Reason::AllCollectivesLinkByOther
            | Reason::AllCollectivesLinkDeleteByOther
            | Reason::OwnerLinkByOther
            | Reason::OwnerLinkDeleteByOther
            | Reason::PermissionIssuedByOther
            | Reason::PermissionLinkByOther
            | Reason::TagWrongAgent
            | Reason::PermissionOfOtherCollective
            | Reason::ContributorLinkByOther
            | Reason::TagWrongCollective
            | Reason::PermissionOfOtherAgent
            | Reason::NotCollectiveCreatorNorAuthor
            | Reason::ToolOfOtherCollective
            | Reason::PreviousActionNotClaim
            | Reason::NoPermission
            | Reason::WrongAgent
            | Reason::WrongCollective
            | Reason::Expired
            | Reason::CuratorToCollectiveLinkByOther
            | Reason::CollectiveToCuratorLinkByOther
            | Reason::CuratorCollectiveLinkDeleteByOther
            | Reason::CuratorToToolLinkByOther
            | Reason::CuratorToToolLinkDeleteByOther
            | Reason::ToolToCuratorLinkByOther
            | Reason::ToolToCuratorLinkDeleteByOther
            | Reason::AllAgentsLinkToOther => ErrorClass::AuthorizationDenied,
        }
    }

    /// Of which kind the reason is.
    pub fn class(&self) -> (class: ErrorClass)
        ensures
            class == self.spec_class(),
    {
        match self {
            Reason::TagNotActionHash(_) | Reason::TagNotAgentKey(_) => ErrorClass::MalformedInput,
            Reason::NotFromAllCuratorsAnchor
            | Reason::NameTooLong
            | Reason::IconTooLarge
            | Reason::DescriptionTooLong
            | Reason::WebsiteTooLong
            | Reason::ContactTooLong
            | Reason::MetaDataTooLong
            | Reason::NotFromAllCollectivesAnchor
            | Reason::TargetNotEntryHash
            | Reason::NotFromAllAgentsAnchor
            | Reason::DeletedPublicEntryMissing
            | Reason::DeletedEntryUndefined => ErrorClass::MalformedInput,
            Reason::CuratorUpdatesLinkDeleted
            | Reason::CollectiveUpdatesLinkDeleted
            | Reason::PermissionUpdated
            | Reason::PermissionDeleted
            | Reason::CollectiveToPermissionsLinkDeleted
            | Reason::ContributorToPermissionsLinkDeleted
            | Reason::ClaimUpdated
            | Reason::ClaimDeleted
            | Reason::CollectiveChanged
            | Reason::ToolUpdatesLinkDeleted
            | Reason::AllAgentsLinkDeleted
            | Reason::EntryKindChanged
            | Reason::UpdateOfNonEntry
            | Reason::UpdatedKindDiffers
            | Reason::DeleteOfNonEntry
            | Reason::DeleteLinkOfNonLink
            | Reason::AgentWithoutValidationPkg => ErrorClass::StructuralViolation,
            Reason::CuratorUpdateByOther
            | Reason::CuratorDeleteByOther
            | Reason::CuratorUpdateLinkByOther
            | Reason::AllCuratorsLinkByOther
            | Reason::AllCuratorsLinkDeleteByOther
            | Reason::CollectiveUpdateByOther
            | Reason::CollectiveDeleteByOther
            | Reason::CollectiveUpdateLinkByOther
            | Reason::AllCollectivesLinkByOther
            | Reason::AllCollectivesLinkDeleteByOther
            | Reason::OwnerLinkByOther
            | Reason::OwnerLinkDeleteByOther
            | Reason::PermissionIssuedByOther
            | Reason::PermissionLinkByOther
            | Reason::TagWrongAgent
            | Reason::PermissionOfOtherCollective
            | Reason::ContributorLinkByOther
            | Reason::TagWrongCollective
            | Reason::PermissionOfOtherAgent
            | Reason::NotCollectiveCreatorNorAuthor
            | Reason::ToolOfOtherCollective
            | Reason::PreviousActionNotClaim
            | Reason::NoPermission
            | Reason::WrongAgent
            | Reason::WrongCollective
            | Reason::Expired
            | Reason::CuratorToCollectiveLinkByOther
            | Reason::CollectiveToCuratorLinkByOther
            | Reason::CuratorCollectiveLinkDeleteByOther
            | Reason::CuratorToToolLinkByOther
            | Reason::CuratorToToolLinkDeleteByOther
            | Reason::ToolToCuratorLinkByOther
            | Reason::ToolToCuratorLinkDeleteByOther
            | Reason::AllAgentsLinkToOther => ErrorClass::AuthorizationDenied,
        }
    }
}

impl ValidationError {
    /// Of which kind the failure is.
    pub open spec fn spec_class(self) -> ErrorClass {
        match self {
            ValidationError::DependencyMissing(_) => ErrorClass::DependencyMissing,
            ValidationError::Guest(_) => ErrorClass::MalformedInput,
            ValidationError::Deserialize => ErrorClass::MalformedInput,
        }
    }

    /// Of which kind the failure is.
    pub fn class(&self) -> (class: ErrorClass)
        ensures
            class == self.spec_class(),
    {
        match self {
            ValidationError::DependencyMissing(_) => ErrorClass::DependencyMissing,
            ValidationError::Guest(_) => ErrorClass::MalformedInput,
            ValidationError::Deserialize => ErrorClass::MalformedInput,
        }
    }
}

/// Of which kind the failure of a mutation is; nothing, for a mutation that
/// is admitted.
pub open spec fn spec_classify(answer: ValidationResult) -> Option<ErrorClass> {
    match answer {
        Ok(ValidateCallbackResult::Valid) => None,
        Ok(ValidateCallbackResult::Invalid(reason)) => Some(reason.spec_class()),
        Err(error) => Some(error.spec_class()),
    }
}

/// Of which kind the failure of a mutation is. A mutation goes into the
/// store only where there is none; it is held against the rules again only
/// where a record was missing; every other failure is for good.
pub fn classify(answer: &ValidationResult) -> (class: Option<ErrorClass>)
    ensures
        class == spec_classify(*answer),
        class is None <==> *answer == valid(),
        class == Some(ErrorClass::DependencyMissing) <==> (*answer matches Err(e)
            && e is DependencyMissing),
{
    match answer {
        Ok(ValidateCallbackResult::Valid) => None,
        Ok(ValidateCallbackResult::Invalid(reason)) => Some(reason.class()),
        Err(error) => Some(error.class()),
    }
}

} // verus!
