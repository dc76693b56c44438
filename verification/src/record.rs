//! Records: what the store holds.
//!
//! A record is one step of one principal: it created, updated or removed an
//! entry, or made or removed an edge. A record is never changed once it is
//! made; removing something is a record of its own that names what it removes.

use crate::hash::{LinkableHash, Principal, RevisionId};
use crate::integrity::contributor_permission::ContributorPermission;
use crate::integrity::contributor_permission_claim::ContributorPermissionClaim;
use crate::integrity::curator::Curator;
use crate::integrity::developer_collective::DeveloperCollective;
use crate::integrity::tool::Tool;
use crate::integrity::{EntryTypes, LinkTypes};
use crate::outcome::{GuestError, ValidationError};
use vstd::prelude::*;

verus! {

/// A point in time, in microseconds since the start of 1970.
#[derive(Clone, Copy, Debug, PartialEq, Eq, Structural, PartialOrd, Ord, Hash)]
pub struct Timestamp(pub i64);

impl Timestamp {
    /// Whether this point in time lies before `other`.
    pub fn is_before(&self, other: &Timestamp) -> (before: bool)
        ensures
            before == (self.0 < other.0),
    {
        self.0 < other.0
    }
}

/// Who can read an entry.
#[derive(Clone, Copy, Debug, PartialEq, Eq, Structural)]
pub enum EntryVisibility {
    Public,
    Private,
}

/// The kind of entry that a record creates or updates.
#[derive(Clone, Copy, Debug, PartialEq, Eq, Structural)]
pub enum EntryType {
    /// The key of an agent.
    AgentPubKey,
    /// An entry that an application defines.
    App { visibility: EntryVisibility },
    /// A capability claim.
    CapClaim,
    /// A capability grant.
    CapGrant,
}

/// The step that creates an entry.
#[derive(Clone, Copy, Debug, PartialEq, Eq)]
pub struct Create {
    pub author: Principal,
    pub timestamp: Timestamp,
    pub prev_action: RevisionId,
    pub entry_type: EntryType,
}

/// The step that puts a new entry in the place of an earlier one.
#[derive(Clone, Copy, Debug, PartialEq, Eq)]
pub struct Update {
    pub author: Principal,
    pub timestamp: Timestamp,
    pub original_action_address: RevisionId,
    pub entry_type: EntryType,
}

/// The step that marks an entry as removed.
#[derive(Clone, Copy, Debug, PartialEq, Eq)]
pub struct Delete {
    pub author: Principal,
    pub timestamp: Timestamp,
    pub deletes_address: RevisionId,
}

/// The step that makes an edge.
#[derive(Clone, Debug, PartialEq, Eq)]
pub struct CreateLink {
    pub author: Principal,
    pub timestamp: Timestamp,
    pub base_address: LinkableHash,
    pub target_address: LinkableHash,
    /// The kind of edge; `None` for a kind that this library does not define.
    pub link_type: Option<LinkTypes>,
    pub tag: Vec<u8>,
}

/// The step that marks an edge as removed.
#[derive(Clone, Copy, Debug, PartialEq, Eq)]
pub struct DeleteLink {
    pub author: Principal,
    pub timestamp: Timestamp,
    /// The step of the same principal just before this one.
    pub prev_action: RevisionId,
    pub base_address: LinkableHash,
    pub link_add_address: RevisionId,
}

/// The step with which an agent asks to join.
#[derive(Clone, Debug, PartialEq, Eq)]
pub struct AgentValidationPkg {
    pub author: Principal,
    pub timestamp: Timestamp,
    pub membrane_proof: Option<Vec<u8>>,
}

/// Any other step: it has an author and a time, and nothing here reads more.
#[derive(Clone, Copy, Debug, PartialEq, Eq)]
pub struct OtherAction {
    pub author: Principal,
    pub timestamp: Timestamp,
}

/// A step that carries an entry.
#[derive(Clone, Copy, Debug, PartialEq, Eq)]
pub enum EntryCreationAction {
    Create(Create),
    Update(Update),
}

impl EntryCreationAction {
    pub open spec fn spec_author(self) -> Principal {
        match self {
            EntryCreationAction::Create(create) => create.author,
            EntryCreationAction::Update(update) => update.author,
        }
    }

    pub open spec fn spec_timestamp(self) -> Timestamp {
        match self {
            EntryCreationAction::Create(create) => create.timestamp,
            EntryCreationAction::Update(update) => update.timestamp,
        }
    }

    pub open spec fn spec_entry_type(self) -> EntryType {
        match self {
            EntryCreationAction::Create(create) => create.entry_type,
            EntryCreationAction::Update(update) => update.entry_type,
        }
    }

    /// Who made the step.
    pub fn author(&self) -> (author: Principal)
        ensures
            author == self.spec_author(),
    {
        match self {
            EntryCreationAction::Create(create) => create.author,
            EntryCreationAction::Update(update) => update.author,
        }
    }

    /// When the step was made, as its author declares.
    pub fn timestamp(&self) -> (timestamp: Timestamp)
        ensures
            timestamp == self.spec_timestamp(),
    {
        match self {
            EntryCreationAction::Create(create) => create.timestamp,
            EntryCreationAction::Update(update) => update.timestamp,
        }
    }

    /// The kind of entry that the step carries.
    pub fn entry_type(&self) -> (entry_type: EntryType)
        ensures
            entry_type == self.spec_entry_type(),
    {
        match self {
            EntryCreationAction::Create(create) => create.entry_type,
            EntryCreationAction::Update(update) => update.entry_type,
        }
    }
}

/// A step.
#[derive(Clone, Debug, PartialEq, Eq)]
pub enum Action {
    Create(Create),
    Update(Update),
    Delete(Delete),
    CreateLink(CreateLink),
    DeleteLink(DeleteLink),
    AgentValidationPkg(AgentValidationPkg),
    Other(OtherAction),
}

impl Action {
    pub open spec fn spec_author(self) -> Principal {
        match self {
            Action::Create(a) => a.author,
            Action::Update(a) => a.author,
            Action::Delete(a) => a.author,
            Action::CreateLink(a) => a.author,
            Action::DeleteLink(a) => a.author,
            Action::AgentValidationPkg(a) => a.author,
            Action::Other(a) => a.author,
        }
    }

    pub open spec fn spec_timestamp(self) -> Timestamp {
        match self {
            Action::Create(a) => a.timestamp,
            Action::Update(a) => a.timestamp,
            Action::Delete(a) => a.timestamp,
            Action::CreateLink(a) => a.timestamp,
            Action::DeleteLink(a) => a.timestamp,
            Action::AgentValidationPkg(a) => a.timestamp,
            Action::Other(a) => a.timestamp,
        }
    }

    /// The step as one that carries an entry, if it is one.
    pub open spec fn spec_entry_creation(self) -> Option<EntryCreationAction> {
        match self {
            Action::Create(a) => Some(EntryCreationAction::Create(a)),
            Action::Update(a) => Some(EntryCreationAction::Update(a)),
            _ => None,
        }
    }

    /// Who made the step.
    pub fn author(&self) -> (author: Principal)
        ensures
            author == self.spec_author(),
    {
        match self {
            Action::Create(a) => a.author,
            Action::Update(a) => a.author,
            Action::Delete(a) => a.author,
            Action::CreateLink(a) => a.author,
            Action::DeleteLink(a) => a.author,
            Action::AgentValidationPkg(a) => a.author,
            Action::Other(a) => a.author,
        }
    }

    /// When the step was made, as its author declares.
    pub fn timestamp(&self) -> (timestamp: Timestamp)
        ensures
            timestamp == self.spec_timestamp(),
    {
        match self {
            Action::Create(a) => a.timestamp,
            Action::Update(a) => a.timestamp,
            Action::Delete(a) => a.timestamp,
            Action::CreateLink(a) => a.timestamp,
            Action::DeleteLink(a) => a.timestamp,
            Action::AgentValidationPkg(a) => a.timestamp,
            Action::Other(a) => a.timestamp,
        }
    }

    /// The step as one that carries an entry, if it is one.
    pub fn entry_creation(&self) -> (step: Option<EntryCreationAction>)
        ensures
            step == self.spec_entry_creation(),
    {
        match self {
            Action::Create(a) => Some(EntryCreationAction::Create(*a)),
            Action::Update(a) => Some(EntryCreationAction::Update(*a)),
            _ => None,
        }
    }
}

/// An entry.
#[derive(Clone, Debug, PartialEq, Eq)]
pub enum Entry {
    /// An entry of one of the kinds that this library defines.
    App(EntryTypes),
    /// An entry that an application defines, of no kind known here.
    Foreign,
    /// The key of an agent.
    Agent,
    /// A capability claim.
    CapClaim,
    /// A capability grant.
    CapGrant,
}

/// The entry of a record, as far as the record shows it.
#[derive(Clone, Debug, PartialEq, Eq)]
pub enum RecordEntry {
    /// The entry is there.
    Present(Entry),
    /// The step carries an entry that is private to its author.
    Hidden,
    /// The step carries no entry.
    NA,
    /// The step carries an entry that was not stored with it.
    NotStored,
}

impl RecordEntry {
    pub open spec fn spec_as_option(self) -> Option<Entry> {
        match self {
            RecordEntry::Present(entry) => Some(entry),
            _ => None,
        }
    }

    /// The entry, if it is there.
    pub fn as_option(&self) -> (entry: Option<&Entry>)
        ensures
            match entry {
                Some(e) => self.spec_as_option() == Some(*e),
                None => self.spec_as_option() is None,
            },
    {
        match self {
            RecordEntry::Present(entry) => Some(entry),
            _ => None,
        }
    }

    /// What reading the entry as a curator gives: the curator; nothing,
    /// where no application entry is there; a failure, where the entry is of
    /// another kind.
    pub open spec fn spec_to_curator(self) -> Result<Option<Curator>, ValidationError> {
        match self {
            RecordEntry::Present(Entry::App(EntryTypes::Curator(curator))) => Ok(Some(curator)),
            RecordEntry::Present(Entry::App(_)) => Err(ValidationError::Deserialize),
            RecordEntry::Present(Entry::Foreign) => Err(ValidationError::Deserialize),
            _ => Ok(None),
        }
    }

    /// What reading the entry as a collective gives.
    pub open spec fn spec_to_developer_collective(self) -> Result<
        Option<DeveloperCollective>,
        ValidationError,
    > {
        match self {
            RecordEntry::Present(Entry::App(EntryTypes::DeveloperCollective(collective))) => Ok(
                Some(collective),
            ),
            RecordEntry::Present(Entry::App(_)) => Err(ValidationError::Deserialize),
            RecordEntry::Present(Entry::Foreign) => Err(ValidationError::Deserialize),
            _ => Ok(None),
        }
    }

    /// What reading the entry as a permission gives.
    pub open spec fn spec_to_contributor_permission(self) -> Result<
        Option<ContributorPermission>,
        ValidationError,
    > {
        match self {
            RecordEntry::Present(Entry::App(EntryTypes::ContributorPermission(permission))) => Ok(
                Some(permission),
            ),
            RecordEntry::Present(Entry::App(_)) => Err(ValidationError::Deserialize),
            RecordEntry::Present(Entry::Foreign) => Err(ValidationError::Deserialize),
            _ => Ok(None),
        }
    }

    /// What reading the entry as a permission claim gives.
    pub open spec fn spec_to_contributor_permission_claim(self) -> Result<
        Option<ContributorPermissionClaim>,
        ValidationError,
    > {
        match self {
            RecordEntry::Present(Entry::App(EntryTypes::ContributorPermissionClaim(claim))) => Ok(
                Some(claim),
            ),
            RecordEntry::Present(Entry::App(_)) => Err(ValidationError::Deserialize),
            RecordEntry::Present(Entry::Foreign) => Err(ValidationError::Deserialize),
            _ => Ok(None),
        }
    }

    /// What reading the entry as a tool gives.
    pub open spec fn spec_to_tool(self) -> Result<Option<Tool>, ValidationError> {
        match self {
            RecordEntry::Present(Entry::App(EntryTypes::Tool(tool))) => Ok(Some(tool)),
            RecordEntry::Present(Entry::App(_)) => Err(ValidationError::Deserialize),
            RecordEntry::Present(Entry::Foreign) => Err(ValidationError::Deserialize),
            _ => Ok(None),
        }
    }

    /// Reads the entry as a curator.
    pub fn to_curator(&self) -> (read: Result<Option<&Curator>, ValidationError>)
        ensures
            match read {
                Ok(Some(curator)) => self.spec_to_curator() == Ok::<
                    Option<Curator>,
                    ValidationError,
                >(Some(*curator)),
                Ok(None) => self.spec_to_curator() == Ok::<Option<Curator>, ValidationError>(None),
                Err(e) => self.spec_to_curator() == Err::<Option<Curator>, ValidationError>(e),
            },
    {
        match self {
            RecordEntry::Present(Entry::App(EntryTypes::Curator(curator))) => Ok(Some(curator)),
            RecordEntry::Present(Entry::App(_)) => Err(ValidationError::Deserialize),
            RecordEntry::Present(Entry::Foreign) => Err(ValidationError::Deserialize),
            _ => Ok(None),
        }
    }

    /// Reads the entry as a collective.
    pub fn to_developer_collective(&self) -> (read: Result<
        Option<&DeveloperCollective>,
        ValidationError,
    >)
        ensures
            match read {
                Ok(Some(collective)) => self.spec_to_developer_collective() == Ok::<
                    Option<DeveloperCollective>,
                    ValidationError,
                >(Some(*collective)),
                Ok(None) => self.spec_to_developer_collective() == Ok::<
                    Option<DeveloperCollective>,
                    ValidationError,
                >(None),
                Err(e) => self.spec_to_developer_collective() == Err::<
                    Option<DeveloperCollective>,
                    ValidationError,
                >(e),
            },
    {
        match self {
            RecordEntry::Present(Entry::App(EntryTypes::DeveloperCollective(collective))) => Ok(
                Some(collective),
            ),
            RecordEntry::Present(Entry::App(_)) => Err(ValidationError::Deserialize),
            RecordEntry::Present(Entry::Foreign) => Err(ValidationError::Deserialize),
            _ => Ok(None),
        }
    }

    /// Reads the entry as a permission.
    pub fn to_contributor_permission(&self) -> (read: Result<
        Option<&ContributorPermission>,
        ValidationError,
    >)
        ensures
            match read {
                Ok(Some(permission)) => self.spec_to_contributor_permission() == Ok::<
                    Option<ContributorPermission>,
                    ValidationError,
                >(Some(*permission)),
                Ok(None) => self.spec_to_contributor_permission() == Ok::<
                    Option<ContributorPermission>,
                    ValidationError,
                >(None),
                Err(e) => self.spec_to_contributor_permission() == Err::<
                    Option<ContributorPermission>,
                    ValidationError,
                >(e),
            },
    {
        match self {
            RecordEntry::Present(Entry::App(EntryTypes::ContributorPermission(permission))) => Ok(
                Some(permission),
            ),
            RecordEntry::Present(Entry::App(_)) => Err(ValidationError::Deserialize),
            RecordEntry::Present(Entry::Foreign) => Err(ValidationError::Deserialize),
            _ => Ok(None),
        }
    }

    /// Reads the entry as a permission claim.
    pub fn to_contributor_permission_claim(&self) -> (read: Result<
        Option<&ContributorPermissionClaim>,
        ValidationError,
    >)
        ensures
            match read {
                Ok(Some(claim)) => self.spec_to_contributor_permission_claim() == Ok::<
                    Option<ContributorPermissionClaim>,
                    ValidationError,
                >(Some(*claim)),
                Ok(None) => self.spec_to_contributor_permission_claim() == Ok::<
                    Option<ContributorPermissionClaim>,
                    ValidationError,
                >(None),
                Err(e) => self.spec_to_contributor_permission_claim() == Err::<
                    Option<ContributorPermissionClaim>,
                    ValidationError,
                >(e),
            },
    {
        match self {
            RecordEntry::Present(Entry::App(EntryTypes::ContributorPermissionClaim(claim))) => Ok(
                Some(claim),
            ),
            RecordEntry::Present(Entry::App(_)) => Err(ValidationError::Deserialize),
            RecordEntry::Present(Entry::Foreign) => Err(ValidationError::Deserialize),
            _ => Ok(None),
        }
    }

    /// Reads the entry as a tool.
    pub fn to_tool(&self) -> (read: Result<Option<&Tool>, ValidationError>)
        ensures
            match read {
                Ok(Some(tool)) => self.spec_to_tool() == Ok::<Option<Tool>, ValidationError>(
                    Some(*tool),
                ),
                Ok(None) => self.spec_to_tool() == Ok::<Option<Tool>, ValidationError>(None),
                Err(e) => self.spec_to_tool() == Err::<Option<Tool>, ValidationError>(e),
            },
    {
        match self {
            RecordEntry::Present(Entry::App(EntryTypes::Tool(tool))) => Ok(Some(tool)),
            RecordEntry::Present(Entry::App(_)) => Err(ValidationError::Deserialize),
            RecordEntry::Present(Entry::Foreign) => Err(ValidationError::Deserialize),
            _ => Ok(None),
        }
    }
}

/// A record: a step, the identity of the step, and the entry that came with
/// it.
#[derive(Clone, Debug, PartialEq, Eq)]
pub struct Record {
    pub action_address: RevisionId,
    pub action: Action,
    pub entry: RecordEntry,
}

impl Record {
    /// Who made the record.
    pub open spec fn spec_author(self) -> Principal {
        self.action.spec_author()
    }

    /// Whether the record marks `id` as removed.
    pub open spec fn spec_deletes(self, id: RevisionId) -> bool {
        self.action matches Action::Delete(delete) && delete.deletes_address == id
    }

    /// Whether the record marks the edge made by `id` as removed.
    pub open spec fn spec_deletes_link(self, id: RevisionId) -> bool {
        self.action matches Action::DeleteLink(delete) && delete.link_add_address == id
    }

    /// Whether the record made an edge of the kind `link_type` that starts
    /// at `base`.
    pub open spec fn spec_is_link(self, base: LinkableHash, link_type: LinkTypes) -> bool {
        self.action matches Action::CreateLink(link) && link.base_address == base
            && link.link_type == Some(link_type)
    }

    /// What the edge that the record made points to; nothing, where the
    /// record made no edge.
    pub open spec fn spec_link_target(self) -> Option<LinkableHash> {
        match self.action {
            Action::CreateLink(link) => Some(link.target_address),
            _ => None,
        }
    }

    /// The revision that the edge that the record made points to: a failure
    /// where it points to no revision.
    pub open spec fn spec_link_target_action_hash(self) -> Result<RevisionId, ValidationError> {
        match self.spec_link_target() {
            Some(LinkableHash::Action(id)) => Ok(id),
            _ => Err(ValidationError::Guest(GuestError::NoActionHash)),
        }
    }

    /// Who made the record.
    pub fn author(&self) -> (author: Principal)
        ensures
            author == self.spec_author(),
    {
        self.action.author()
    }

    /// When the record was made, as its author declares.
    pub fn timestamp(&self) -> (timestamp: Timestamp)
        ensures
            timestamp == self.action.spec_timestamp(),
    {
        self.action.timestamp()
    }

    /// What the edge that the record made points to.
    pub fn link_target(&self) -> (target: Option<LinkableHash>)
        ensures
            target == self.spec_link_target(),
    {
        match &self.action {
            Action::CreateLink(link) => Some(link.target_address),
            _ => None,
        }
    }

    /// The revision that the edge that the record made points to.
    pub fn link_target_action_hash(&self) -> (target: Result<RevisionId, ValidationError>)
        ensures
            target == self.spec_link_target_action_hash(),
    {
        match &self.action {
            Action::CreateLink(link) => match link.target_address {
                LinkableHash::Action(id) => Ok(id),
                _ => Err(ValidationError::Guest(GuestError::NoActionHash)),
            },
            _ => Err(ValidationError::Guest(GuestError::NoActionHash)),
        }
    }

    /// What reading the record as a curator gives, where the failure `absent`
    /// stands for a record without an application entry.
    pub open spec fn spec_curator(self, absent: GuestError) -> Result<Curator, ValidationError> {
        match self.entry.spec_to_curator() {
            Ok(Some(entry)) => Ok(entry),
            Ok(None) => Err(ValidationError::Guest(absent)),
            Err(e) => Err(e),
        }
    }

    /// Reads the record as a curator.
    pub fn curator(&self, absent: GuestError) -> (read: Result<&Curator, ValidationError>)
        ensures
            match read {
                Ok(entry) => self.spec_curator(absent) == Ok::<Curator, ValidationError>(*entry),
                Err(e) => self.spec_curator(absent) == Err::<Curator, ValidationError>(e),
            },
    {
        match self.entry.to_curator() {
            Ok(Some(entry)) => Ok(entry),
            Ok(None) => Err(ValidationError::Guest(absent)),
            Err(e) => Err(e),
        }
    }

    /// What reading the record as a collective gives, where the failure `absent`
    /// stands for a record without an application entry.
    pub open spec fn spec_developer_collective(
        self,
        absent: GuestError,
    ) -> Result<DeveloperCollective, ValidationError> {
        match self.entry.spec_to_developer_collective() {
            Ok(Some(entry)) => Ok(entry),
            Ok(None) => Err(ValidationError::Guest(absent)),
            Err(e) => Err(e),
        }
    }

    /// Reads the record as a collective.
    pub fn developer_collective(
        &self,
        absent: GuestError,
    ) -> (read: Result<&DeveloperCollective, ValidationError>)
        ensures
            match read {
                Ok(entry) => self.spec_developer_collective(absent) == Ok::<
                    DeveloperCollective,
                    ValidationError,
                >(*entry),
                Err(e) => self.spec_developer_collective(absent) == Err::<
                    DeveloperCollective,
                    ValidationError,
                >(e),
            },
    {
        match self.entry.to_developer_collective() {
            Ok(Some(entry)) => Ok(entry),
            Ok(None) => Err(ValidationError::Guest(absent)),
            Err(e) => Err(e),
        }
    }

    /// What reading the record as a permission gives, where the failure `absent`
    /// stands for a record without an application entry.
    pub open spec fn spec_contributor_permission(
        self,
        absent: GuestError,
    ) -> Result<ContributorPermission, ValidationError> {
        match self.entry.spec_to_contributor_permission() {
            Ok(Some(entry)) => Ok(entry),
            Ok(None) => Err(ValidationError::Guest(absent)),
            Err(e) => Err(e),
        }
    }

    /// Reads the record as a permission.
    pub fn contributor_permission(
        &self,
        absent: GuestError,
    ) -> (read: Result<&ContributorPermission, ValidationError>)
        ensures
            match read {
                Ok(entry) => self.spec_contributor_permission(absent) == Ok::<
                    ContributorPermission,
                    ValidationError,
                >(*entry),
                Err(e) => self.spec_contributor_permission(absent) == Err::<
                    ContributorPermission,
                    ValidationError,
                >(e),
            },
    {
        match self.entry.to_contributor_permission() {
            Ok(Some(entry)) => Ok(entry),
            Ok(None) => Err(ValidationError::Guest(absent)),
            Err(e) => Err(e),
        }
    }

    /// What reading the record as a permission claim gives, where the failure `absent`
    /// stands for a record without an application entry.
    pub open spec fn spec_contributor_permission_claim(
        self,
        absent: GuestError,
    ) -> Result<ContributorPermissionClaim, ValidationError> {
        match self.entry.spec_to_contributor_permission_claim() {
            Ok(Some(entry)) => Ok(entry),
            Ok(None) => Err(ValidationError::Guest(absent)),
            Err(e) => Err(e),
        }
    }

    /// Reads the record as a permission claim.
    pub fn contributor_permission_claim(
        &self,
        absent: GuestError,
    ) -> (read: Result<&ContributorPermissionClaim, ValidationError>)
        ensures
            match read {
                Ok(entry) => self.spec_contributor_permission_claim(absent) == Ok::<
                    ContributorPermissionClaim,
                    ValidationError,
                >(*entry),
                Err(e) => self.spec_contributor_permission_claim(absent) == Err::<
                    ContributorPermissionClaim,
                    ValidationError,
                >(e),
            },
    {
        match self.entry.to_contributor_permission_claim() {
            Ok(Some(entry)) => Ok(entry),
            Ok(None) => Err(ValidationError::Guest(absent)),
            Err(e) => Err(e),
        }
    }

    /// What reading the record as a tool gives, where the failure `absent`
    /// stands for a record without an application entry.
    pub open spec fn spec_tool(self, absent: GuestError) -> Result<Tool, ValidationError> {
        match self.entry.spec_to_tool() {
            Ok(Some(entry)) => Ok(entry),
            Ok(None) => Err(ValidationError::Guest(absent)),
            Err(e) => Err(e),
        }
    }

    /// Reads the record as a tool.
    pub fn tool(&self, absent: GuestError) -> (read: Result<&Tool, ValidationError>)
        ensures
            match read {
                Ok(entry) => self.spec_tool(absent) == Ok::<Tool, ValidationError>(*entry),
                Err(e) => self.spec_tool(absent) == Err::<Tool, ValidationError>(e),
            },
    {
        match self.entry.to_tool() {
            Ok(Some(entry)) => Ok(entry),
            Ok(None) => Err(ValidationError::Guest(absent)),
            Err(e) => Err(e),
        }
    }
}

} // verus!
