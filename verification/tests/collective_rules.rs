use tool_library::hash::{EntryId, ExternalId, LinkableHash, Principal, RevisionId};
use tool_library::integrity::all_agents::{
    validate_create_link_all_agents, validate_delete_link_all_agents,
};
use tool_library::integrity::curator::{
    validate_create_curator, validate_create_link_all_curators,
    validate_create_link_curator_updates, validate_delete_curator,
    validate_delete_link_all_curators, validate_delete_link_curator_updates,
    validate_update_curator, Curator,
};
use tool_library::integrity::curator_to_developer_collectives::{
    validate_create_link_curator_to_developer_collectives,
    validate_create_link_developer_collective_to_curators,
    validate_delete_link_curator_to_developer_collectives,
    validate_delete_link_developer_collective_to_curators,
};
use tool_library::integrity::curator_to_tools::{
    validate_create_link_curator_to_tools, validate_create_link_tool_to_curators,
    validate_delete_link_curator_to_tools, validate_delete_link_tool_to_curators,
};
use tool_library::integrity::developer_collective::{
    validate_create_developer_collective, validate_create_link_all_developer_collectives,
    validate_create_link_developer_collective_updates, validate_delete_developer_collective,
    validate_delete_link_all_developer_collectives,
    validate_delete_link_developer_collective_updates, validate_update_developer_collective,
    DeveloperCollective, CONTACT_MAX_LENGTH, DESCRIPTION_MAX_LENGTH, ICON_MAX_LENGTH,
    META_DATA_MAX_LENGTH, NAME_MAX_LENGTH, WEBSITE_MAX_LENGTH,
};
use tool_library::integrity::developer_collective_to_owner::{
    validate_create_link_developer_collective_to_owner,
    validate_delete_link_developer_collective_to_owner,
};
use tool_library::integrity::tool::Tool;
use tool_library::integrity::EntryTypes;
use tool_library::outcome::{GuestError, Reason, ValidateCallbackResult, ValidationError};
use tool_library::record::{
    Action, Create, CreateLink, Delete, DeleteLink, Entry, EntryCreationAction, EntryType,
    EntryVisibility, Record, RecordEntry, Timestamp, Update,
};
use tool_library::store::{Anchors, ContentStore};

fn agent(n: u8) -> Principal {
    Principal { bytes: [n; 36] }
}

fn rid(n: u8) -> RevisionId {
    RevisionId { bytes: [n; 36] }
}

fn x() -> Principal {
    agent(1)
}

fn y() -> Principal {
    agent(2)
}

fn z() -> Principal {
    agent(3)
}

fn valid() -> Result<ValidateCallbackResult, ValidationError> {
    Ok(ValidateCallbackResult::Valid)
}

fn invalid(reason: Reason) -> Result<ValidateCallbackResult, ValidationError> {
    Ok(ValidateCallbackResult::Invalid(reason))
}

fn guest(error: GuestError) -> Result<ValidateCallbackResult, ValidationError> {
    Err(ValidationError::Guest(error))
}

fn missing(id: RevisionId) -> Result<ValidateCallbackResult, ValidationError> {
    Err(ValidationError::DependencyMissing(id))
}

fn public() -> EntryType {
    EntryType::App { visibility: EntryVisibility::Public }
}

fn create(author: Principal, time: i64) -> Create {
    Create { author, timestamp: Timestamp(time), prev_action: rid(0), entry_type: public() }
}

fn created(id: RevisionId, author: Principal, time: i64, entry: EntryTypes) -> Record {
    Record {
        action_address: id,
        action: Action::Create(create(author, time)),
        entry: RecordEntry::Present(Entry::App(entry)),
    }
}

fn bare(id: RevisionId, author: Principal, time: i64) -> Record {
    Record {
        action_address: id,
        action: Action::Create(create(author, time)),
        entry: RecordEntry::NA,
    }
}

fn collective() -> DeveloperCollective {
    DeveloperCollective {
        name: "Lightningrod Labs".to_string(),
        description: None,
        website: None,
        contact: None,
        icon: "icon".to_string(),
        meta_data: None,
    }
}

fn curator() -> Curator {
    Curator {
        name: "A curator".to_string(),
        description: "Curates".to_string(),
        icon: "icon".to_string(),
        website: None,
        email: None,
        meta_data: None,
    }
}

fn tool(developer_collective: RevisionId, permission_hash: RevisionId) -> Tool {
    Tool {
        developer_collective,
        permission_hash,
        title: "A tool".to_string(),
        subtitle: "that helps".to_string(),
        description: "It helps.".to_string(),
        icon: "icon".to_string(),
        version: "0.1.0".to_string(),
        source: "{}".to_string(),
        hashes: "{}".to_string(),
        changelog: None,
        meta_data: None,
        deprecation: None,
    }
}

fn anchors() -> Anchors {
    Anchors {
        all_agents: EntryId { bytes: [201; 36] },
        all_curators: EntryId { bytes: [202; 36] },
        all_developer_collectives: EntryId { bytes: [203; 36] },
    }
}

fn store_of(records: Vec<Record>) -> ContentStore {
    let mut store = ContentStore::new(anchors());
    for record in records {
        assert!(store.insert(record));
    }
    store
}

fn link(author: Principal, time: i64) -> CreateLink {
    CreateLink {
        author,
        timestamp: Timestamp(time),
        base_address: LinkableHash::Action(rid(0)),
        target_address: LinkableHash::Action(rid(0)),
        link_type: None,
        tag: vec![],
    }
}

fn unlink(author: Principal, time: i64) -> DeleteLink {
    DeleteLink {
        author,
        timestamp: Timestamp(time),
        prev_action: rid(0),
        base_address: LinkableHash::Action(rid(0)),
        link_add_address: rid(99),
    }
}

fn action_of(id: RevisionId) -> LinkableHash {
    LinkableHash::Action(id)
}

fn entry_hash() -> LinkableHash {
    LinkableHash::Entry(EntryId { bytes: [77; 36] })
}

fn external() -> LinkableHash {
    LinkableHash::External(ExternalId { bytes: [78; 36] })
}

fn c() -> RevisionId {
    rid(10)
}

fn k() -> RevisionId {
    rid(50)
}

fn t() -> RevisionId {
    rid(30)
}

/// A collective `c` of `x`, a curator `k` of `y`, and a tool `t` of `x`.
fn world() -> ContentStore {
    store_of(vec![
        created(c(), x(), 0, EntryTypes::DeveloperCollective(collective())),
        created(k(), y(), 1, EntryTypes::Curator(curator())),
        created(t(), x(), 2, EntryTypes::Tool(tool(c(), c()))),
        bare(rid(60), x(), 3),
    ])
}

fn update(author: Principal) -> Update {
    Update {
        author,
        timestamp: Timestamp(7),
        original_action_address: c(),
        entry_type: public(),
    }
}

fn delete(author: Principal) -> Delete {
    Delete { author, timestamp: Timestamp(9), deletes_address: c() }
}

fn chars(n: usize) -> String {
    "x".repeat(n)
}

#[test]
fn collective_within_its_sizes_is_admitted() {
    let action = EntryCreationAction::Create(create(x(), 0));
    assert_eq!(validate_create_developer_collective(&action, &collective()), valid());
}

#[test]
fn collective_at_the_limits_is_admitted() {
    let action = EntryCreationAction::Create(create(x(), 0));
    let full = DeveloperCollective {
        name: chars(NAME_MAX_LENGTH),
        description: Some(chars(DESCRIPTION_MAX_LENGTH)),
        website: Some(chars(WEBSITE_MAX_LENGTH)),
        contact: Some(chars(CONTACT_MAX_LENGTH)),
        icon: chars(ICON_MAX_LENGTH),
        meta_data: Some(chars(META_DATA_MAX_LENGTH)),
    };
    assert_eq!(validate_create_developer_collective(&action, &full), valid());
}

#[test]
fn limits_of_a_collective() {
    assert_eq!(NAME_MAX_LENGTH, 50);
    assert_eq!(DESCRIPTION_MAX_LENGTH, 1200);
    assert_eq!(WEBSITE_MAX_LENGTH, 500);
    assert_eq!(CONTACT_MAX_LENGTH, 300);
    assert_eq!(ICON_MAX_LENGTH, 1_000_000);
    assert_eq!(META_DATA_MAX_LENGTH, 5_000_000);
}

#[test]
fn name_of_a_collective_is_counted_in_characters() {
    let action = EntryCreationAction::Create(create(x(), 0));
    let mut named = collective();
    named.name = "ü".repeat(50);
    assert_eq!(named.name.len(), 100);
    assert_eq!(validate_create_developer_collective(&action, &named), valid());
    named.name = "ü".repeat(51);
    assert_eq!(
        validate_create_developer_collective(&action, &named),
        invalid(Reason::NameTooLong)
    );
}

#[test]
fn name_of_a_collective_is_too_long() {
    let action = EntryCreationAction::Create(create(x(), 0));
    let mut named = collective();
    named.name = chars(51);
    assert_eq!(
        validate_create_developer_collective(&action, &named),
        invalid(Reason::NameTooLong)
    );
}

#[test]
fn icon_of_a_collective_is_too_large() {
    let action = EntryCreationAction::Create(create(x(), 0));
    let mut drawn = collective();
    drawn.icon = chars(1_000_001);
    assert_eq!(
        validate_create_developer_collective(&action, &drawn),
        invalid(Reason::IconTooLarge)
    );
}

#[test]
fn description_of_a_collective_is_too_long() {
    let action = EntryCreationAction::Create(create(x(), 0));
    let mut described = collective();
    described.description = Some(chars(1201));
    assert_eq!(
        validate_create_developer_collective(&action, &described),
        invalid(Reason::DescriptionTooLong)
    );
}

#[test]
fn website_of_a_collective_is_too_long() {
    let action = EntryCreationAction::Create(create(x(), 0));
    let mut linked = collective();
    linked.website = Some(chars(501));
    assert_eq!(
        validate_create_developer_collective(&action, &linked),
        invalid(Reason::WebsiteTooLong)
    );
}

#[test]
fn contact_of_a_collective_is_too_long() {
    let action = EntryCreationAction::Create(create(x(), 0));
    let mut reachable = collective();
    reachable.contact = Some(chars(301));
    assert_eq!(
        validate_create_developer_collective(&action, &reachable),
        invalid(Reason::ContactTooLong)
    );
}

#[test]
fn contact_of_a_collective_is_held_against_its_own_limit() {
    let action = EntryCreationAction::Create(create(x(), 0));
    let mut reachable = collective();
    reachable.website = Some(chars(500));
    reachable.contact = Some(chars(300));
    assert_eq!(validate_create_developer_collective(&action, &reachable), valid());
    reachable.website = None;
    reachable.contact = Some(chars(301));
    assert_eq!(
        validate_create_developer_collective(&action, &reachable),
        invalid(Reason::ContactTooLong)
    );
}

#[test]
fn metadata_of_a_collective_is_too_long() {
    let action = EntryCreationAction::Create(create(x(), 0));
    let mut annotated = collective();
    annotated.meta_data = Some(chars(5_000_001));
    assert_eq!(
        validate_create_developer_collective(&action, &annotated),
        invalid(Reason::MetaDataTooLong)
    );
}

#[test]
fn first_field_that_is_too_long_gives_the_reason() {
    let action = EntryCreationAction::Create(create(x(), 0));
    let mut all = DeveloperCollective {
        name: chars(51),
        description: Some(chars(1201)),
        website: Some(chars(501)),
        contact: Some(chars(301)),
        icon: chars(1_000_001),
        meta_data: Some(chars(5_000_001)),
    };
    assert_eq!(validate_create_developer_collective(&action, &all), invalid(Reason::NameTooLong));
    all.name = chars(1);
    assert_eq!(validate_create_developer_collective(&action, &all), invalid(Reason::IconTooLarge));
    all.icon = chars(1);
    assert_eq!(
        validate_create_developer_collective(&action, &all),
        invalid(Reason::DescriptionTooLong)
    );
    all.description = None;
    assert_eq!(
        validate_create_developer_collective(&action, &all),
        invalid(Reason::WebsiteTooLong)
    );
    all.website = None;
    assert_eq!(
        validate_create_developer_collective(&action, &all),
        invalid(Reason::ContactTooLong)
    );
    all.contact = None;
    assert_eq!(
        validate_create_developer_collective(&action, &all),
        invalid(Reason::MetaDataTooLong)
    );
    all.meta_data = None;
    assert_eq!(validate_create_developer_collective(&action, &all), valid());
}

#[test]
fn owner_updates_the_collective() {
    let original = EntryCreationAction::Create(create(x(), 0));
    assert_eq!(
        validate_update_developer_collective(&update(x()), &collective(), &original, &collective()),
        valid()
    );
}

#[test]
fn someone_else_cannot_update_the_collective() {
    let original = EntryCreationAction::Create(create(x(), 0));
    assert_eq!(
        validate_update_developer_collective(&update(y()), &collective(), &original, &collective()),
        invalid(Reason::CollectiveUpdateByOther)
    );
}

#[test]
fn update_of_a_collective_is_held_against_the_sizes() {
    let original = EntryCreationAction::Create(create(x(), 0));
    let mut named = collective();
    named.name = chars(51);
    assert_eq!(
        validate_update_developer_collective(&update(x()), &named, &original, &collective()),
        invalid(Reason::NameTooLong)
    );
    assert_eq!(
        validate_update_developer_collective(&update(y()), &named, &original, &collective()),
        invalid(Reason::CollectiveUpdateByOther)
    );
}

#[test]
fn owner_deletes_the_collective() {
    let original = EntryCreationAction::Create(create(x(), 0));
    assert_eq!(
        validate_delete_developer_collective(&delete(x()), &original, &collective()),
        valid()
    );
}

#[test]
fn someone_else_cannot_delete_the_collective() {
    let original = EntryCreationAction::Create(create(x(), 0));
    assert_eq!(
        validate_delete_developer_collective(&delete(y()), &original, &collective()),
        invalid(Reason::CollectiveDeleteByOther)
    );
}

fn updated_world() -> ContentStore {
    let mut store = world();
    assert!(store.insert(Record {
        action_address: rid(11),
        action: Action::Update(update(x())),
        entry: RecordEntry::Present(Entry::App(EntryTypes::DeveloperCollective(collective()))),
    }));
    assert!(store.insert(Record {
        action_address: rid(51),
        action: Action::Update(update(y())),
        entry: RecordEntry::Present(Entry::App(EntryTypes::Curator(curator()))),
    }));
    store
}

#[test]
fn owner_makes_the_update_edge_of_a_collective() {
    let store = updated_world();
    assert_eq!(
        validate_create_link_developer_collective_updates(
            &store,
            &link(x(), 8),
            action_of(c()),
            action_of(rid(11)),
            &vec![]
        ),
        valid()
    );
}

#[test]
fn someone_else_cannot_make_the_update_edge_of_a_collective() {
    let store = updated_world();
    assert_eq!(
        validate_create_link_developer_collective_updates(
            &store,
            &link(y(), 8),
            action_of(c()),
            action_of(rid(11)),
            &vec![]
        ),
        invalid(Reason::CollectiveUpdateLinkByOther)
    );
}

#[test]
fn update_edge_of_a_collective_has_to_connect_collectives() {
    let store = updated_world();
    assert_eq!(
        validate_create_link_developer_collective_updates(
            &store,
            &link(x(), 8),
            entry_hash(),
            action_of(rid(11)),
            &vec![]
        ),
        guest(GuestError::NoActionHash)
    );
    assert_eq!(
        validate_create_link_developer_collective_updates(
            &store,
            &link(x(), 8),
            action_of(c()),
            external(),
            &vec![]
        ),
        guest(GuestError::NoActionHash)
    );
    assert_eq!(
        validate_create_link_developer_collective_updates(
            &store,
            &link(x(), 8),
            action_of(rid(60)),
            action_of(rid(11)),
            &vec![]
        ),
        guest(GuestError::CollectiveBaseNoEntry)
    );
    assert_eq!(
        validate_create_link_developer_collective_updates(
            &store,
            &link(x(), 8),
            action_of(c()),
            action_of(rid(60)),
            &vec![]
        ),
        guest(GuestError::CollectiveTargetNoEntry)
    );
    assert_eq!(
        validate_create_link_developer_collective_updates(
            &store,
            &link(x(), 8),
            action_of(c()),
            action_of(t()),
            &vec![]
        ),
        Err(ValidationError::Deserialize)
    );
    assert_eq!(
        validate_create_link_developer_collective_updates(
            &store,
            &link(x(), 8),
            action_of(t()),
            action_of(rid(11)),
            &vec![]
        ),
        Err(ValidationError::Deserialize)
    );
    assert_eq!(
        validate_create_link_developer_collective_updates(
            &store,
            &link(x(), 8),
            action_of(rid(12)),
            action_of(rid(11)),
            &vec![]
        ),
        missing(rid(12))
    );
    assert_eq!(
        validate_create_link_developer_collective_updates(
            &store,
            &link(x(), 8),
            action_of(c()),
            action_of(rid(13)),
            &vec![]
        ),
        missing(rid(13))
    );
}

#[test]
fn update_edge_of_a_collective_is_never_removed() {
    let store = updated_world();
    assert_eq!(
        validate_delete_link_developer_collective_updates(
            &store,
            &unlink(x(), 9),
            &link(x(), 8),
            action_of(c()),
            action_of(rid(11)),
            &vec![]
        ),
        invalid(Reason::CollectiveUpdatesLinkDeleted)
    );
}

fn all_collectives() -> LinkableHash {
    LinkableHash::Entry(anchors().all_developer_collectives)
}

fn all_curators() -> LinkableHash {
    LinkableHash::Entry(anchors().all_curators)
}

fn all_agents() -> LinkableHash {
    LinkableHash::Entry(anchors().all_agents)
}

#[test]
fn owner_lists_the_collective() {
    let store = world();
    assert_eq!(
        validate_create_link_all_developer_collectives(
            &store,
            &link(x(), 8),
            all_collectives(),
            action_of(c()),
            &vec![]
        ),
        valid()
    );
}

#[test]
fn someone_else_cannot_list_the_collective() {
    let store = world();
    assert_eq!(
        validate_create_link_all_developer_collectives(
            &store,
            &link(y(), 8),
            all_collectives(),
            action_of(c()),
            &vec![]
        ),
        invalid(Reason::AllCollectivesLinkByOther)
    );
}

#[test]
fn collective_is_listed_at_the_anchor_of_collectives_only() {
    let store = world();
    assert_eq!(
        validate_create_link_all_developer_collectives(
            &store,
            &link(x(), 8),
            all_curators(),
            action_of(c()),
            &vec![]
        ),
        invalid(Reason::NotFromAllCollectivesAnchor)
    );
    assert_eq!(
        validate_create_link_all_developer_collectives(
            &store,
            &link(x(), 8),
            action_of(c()),
            action_of(c()),
            &vec![]
        ),
        guest(GuestError::BaseNotEntryHash)
    );
}

#[test]
fn list_of_collectives_holds_collectives_only() {
    let store = world();
    assert_eq!(
        validate_create_link_all_developer_collectives(
            &store,
            &link(x(), 8),
            all_collectives(),
            entry_hash(),
            &vec![]
        ),
        guest(GuestError::NoActionHash)
    );
    assert_eq!(
        validate_create_link_all_developer_collectives(
            &store,
            &link(x(), 8),
            all_collectives(),
            action_of(rid(60)),
            &vec![]
        ),
        guest(GuestError::NoCollectiveEntry)
    );
    assert_eq!(
        validate_create_link_all_developer_collectives(
            &store,
            &link(x(), 8),
            all_collectives(),
            action_of(k()),
            &vec![]
        ),
        Err(ValidationError::Deserialize)
    );
    assert_eq!(
        validate_create_link_all_developer_collectives(
            &store,
            &link(x(), 8),
            all_collectives(),
            action_of(rid(14)),
            &vec![]
        ),
        missing(rid(14))
    );
}

#[test]
fn maker_takes_the_collective_off_the_list() {
    let store = world();
    assert_eq!(
        validate_delete_link_all_developer_collectives(
            &store,
            &unlink(x(), 9),
            &link(x(), 8),
            all_collectives(),
            action_of(c()),
            &vec![]
        ),
        valid()
    );
    assert_eq!(
        validate_delete_link_all_developer_collectives(
            &store,
            &unlink(y(), 9),
            &link(x(), 8),
            all_collectives(),
            action_of(c()),
            &vec![]
        ),
        invalid(Reason::AllCollectivesLinkDeleteByOther)
    );
}

#[test]
fn owner_edge_points_to_its_maker() {
    let store = world();
    assert_eq!(
        validate_create_link_developer_collective_to_owner(
            &store,
            &link(x(), 8),
            action_of(c()),
            LinkableHash::from_agent_pub_key(x()),
            &vec![]
        ),
        valid()
    );
    assert_eq!(
        validate_create_link_developer_collective_to_owner(
            &store,
            &link(y(), 8),
            action_of(c()),
            LinkableHash::from_agent_pub_key(x()),
            &vec![]
        ),
        invalid(Reason::OwnerLinkByOther)
    );
}

#[test]
fn owner_edge_starts_at_a_collective_and_ends_at_a_principal() {
    let store = world();
    assert_eq!(
        validate_create_link_developer_collective_to_owner(
            &store,
            &link(x(), 8),
            entry_hash(),
            LinkableHash::from_agent_pub_key(x()),
            &vec![]
        ),
        guest(GuestError::NoActionHash)
    );
    assert_eq!(
        validate_create_link_developer_collective_to_owner(
            &store,
            &link(x(), 8),
            action_of(c()),
            action_of(c()),
            &vec![]
        ),
        guest(GuestError::NoAgentKey)
    );
    assert_eq!(
        validate_create_link_developer_collective_to_owner(
            &store,
            &link(x(), 8),
            action_of(rid(60)),
            LinkableHash::from_agent_pub_key(x()),
            &vec![]
        ),
        guest(GuestError::NoEntry)
    );
    assert_eq!(
        validate_create_link_developer_collective_to_owner(
            &store,
            &link(x(), 8),
            action_of(k()),
            LinkableHash::from_agent_pub_key(x()),
            &vec![]
        ),
        Err(ValidationError::Deserialize)
    );
    assert_eq!(
        validate_create_link_developer_collective_to_owner(
            &store,
            &link(x(), 8),
            action_of(rid(15)),
            LinkableHash::from_agent_pub_key(x()),
            &vec![]
        ),
        missing(rid(15))
    );
}

#[test]
fn maker_removes_the_owner_edge() {
    let store = world();
    assert_eq!(
        validate_delete_link_developer_collective_to_owner(
            &store,
            &unlink(x(), 9),
            &link(x(), 8),
            action_of(c()),
            LinkableHash::from_agent_pub_key(x()),
            &vec![]
        ),
        valid()
    );
    assert_eq!(
        validate_delete_link_developer_collective_to_owner(
            &store,
            &unlink(z(), 9),
            &link(x(), 8),
            action_of(c()),
            LinkableHash::from_agent_pub_key(x()),
            &vec![]
        ),
        invalid(Reason::OwnerLinkDeleteByOther)
    );
}

#[test]
fn agent_lists_itself() {
    let store = world();
    assert_eq!(
        validate_create_link_all_agents(
            &store,
            &link(z(), 8),
            all_agents(),
            LinkableHash::from_agent_pub_key(z()),
            &vec![]
        ),
        valid()
    );
    assert_eq!(
        validate_create_link_all_agents(
            &store,
            &link(z(), 8),
            all_agents(),
            LinkableHash::from_agent_pub_key(y()),
            &vec![]
        ),
        invalid(Reason::AllAgentsLinkToOther)
    );
}

#[test]
fn agent_is_listed_at_the_anchor_of_agents_only() {
    let store = world();
    assert_eq!(
        validate_create_link_all_agents(
            &store,
            &link(z(), 8),
            all_collectives(),
            LinkableHash::from_agent_pub_key(z()),
            &vec![]
        ),
        invalid(Reason::NotFromAllAgentsAnchor)
    );
    assert_eq!(
        validate_create_link_all_agents(
            &store,
            &link(z(), 8),
            external(),
            LinkableHash::from_agent_pub_key(z()),
            &vec![]
        ),
        guest(GuestError::BaseNotEntryHash)
    );
    assert_eq!(
        validate_create_link_all_agents(
            &store,
            &link(z(), 8),
            all_agents(),
            action_of(c()),
            &vec![],
        ),
        guest(GuestError::TargetNotAgentKey)
    );
}

#[test]
fn agent_is_never_taken_off_the_list() {
    let store = world();
    assert_eq!(
        validate_delete_link_all_agents(
            &store,
            &unlink(z(), 9),
            &link(z(), 8),
            all_agents(),
            LinkableHash::from_agent_pub_key(z()),
            &vec![]
        ),
        invalid(Reason::AllAgentsLinkDeleted)
    );
}

#[test]
fn anyone_creates_a_curator() {
    let action = EntryCreationAction::Create(create(z(), 0));
    assert_eq!(validate_create_curator(&action, &curator()), valid());
}

#[test]
fn creator_updates_and_deletes_the_curator() {
    let original = EntryCreationAction::Create(create(y(), 1));
    assert_eq!(validate_update_curator(&update(y()), &curator(), &original, &curator()), valid());
    assert_eq!(
        validate_update_curator(&update(x()), &curator(), &original, &curator()),
        invalid(Reason::CuratorUpdateByOther)
    );
    assert_eq!(validate_delete_curator(&delete(y()), &original, &curator()), valid());
    assert_eq!(
        validate_delete_curator(&delete(x()), &original, &curator()),
        invalid(Reason::CuratorDeleteByOther)
    );
}

#[test]
fn creator_makes_the_update_edge_of_a_curator() {
    let store = updated_world();
    assert_eq!(
        validate_create_link_curator_updates(
            &store,
            &link(y(), 8),
            action_of(k()),
            action_of(rid(51)),
            &vec![]
        ),
        valid()
    );
    assert_eq!(
        validate_create_link_curator_updates(
            &store,
            &link(x(), 8),
            action_of(k()),
            action_of(rid(51)),
            &vec![]
        ),
        invalid(Reason::CuratorUpdateLinkByOther)
    );
}

#[test]
fn update_edge_of_a_curator_has_to_connect_curators() {
    let store = updated_world();
    assert_eq!(
        validate_create_link_curator_updates(
            &store,
            &link(y(), 8),
            external(),
            action_of(rid(51)),
            &vec![]
        ),
        guest(GuestError::NoActionHash)
    );
    assert_eq!(
        validate_create_link_curator_updates(
            &store,
            &link(x(), 8),
            action_of(rid(60)),
            action_of(rid(51)),
            &vec![]
        ),
        guest(GuestError::CuratorBaseNoEntry)
    );
    assert_eq!(
        validate_create_link_curator_updates(
            &store,
            &link(y(), 8),
            action_of(k()),
            action_of(rid(60)),
            &vec![]
        ),
        guest(GuestError::CuratorTargetNoEntry)
    );
    assert_eq!(
        validate_create_link_curator_updates(
            &store,
            &link(y(), 8),
            action_of(k()),
            action_of(c()),
            &vec![]
        ),
        Err(ValidationError::Deserialize)
    );
    assert_eq!(
        validate_create_link_curator_updates(
            &store,
            &link(y(), 8),
            action_of(k()),
            action_of(rid(52)),
            &vec![]
        ),
        missing(rid(52))
    );
}

#[test]
fn update_edge_of_a_curator_is_never_removed() {
    let store = updated_world();
    assert_eq!(
        validate_delete_link_curator_updates(
            &store,
            &unlink(y(), 9),
            &link(y(), 8),
            action_of(k()),
            action_of(rid(51)),
            &vec![]
        ),
        invalid(Reason::CuratorUpdatesLinkDeleted)
    );
}

#[test]
fn creator_lists_the_curator() {
    let store = world();
    assert_eq!(
        validate_create_link_all_curators(
            &store,
            &link(y(), 8),
            all_curators(),
            action_of(k()),
            &vec![]
        ),
        valid()
    );
    assert_eq!(
        validate_create_link_all_curators(
            &store,
            &link(x(), 8),
            all_curators(),
            action_of(k()),
            &vec![]
        ),
        invalid(Reason::AllCuratorsLinkByOther)
    );
}

#[test]
fn curator_is_listed_at_the_anchor_of_curators_only() {
    let store = world();
    assert_eq!(
        validate_create_link_all_curators(
            &store,
            &link(y(), 8),
            all_agents(),
            action_of(k()),
            &vec![]
        ),
        invalid(Reason::NotFromAllCuratorsAnchor)
    );
    assert_eq!(
        validate_create_link_all_curators(
            &store,
            &link(y(), 8),
            action_of(k()),
            action_of(k()),
            &vec![]
        ),
        guest(GuestError::BaseNotEntryHash)
    );
    assert_eq!(
        validate_create_link_all_curators(
            &store,
            &link(y(), 8),
            all_curators(),
            action_of(rid(60)),
            &vec![]
        ),
        guest(GuestError::NoCuratorEntry)
    );
    assert_eq!(
        validate_create_link_all_curators(
            &store,
            &link(y(), 8),
            all_curators(),
            entry_hash(),
            &vec![]
        ),
        guest(GuestError::NoActionHash)
    );
}

#[test]
fn maker_takes_the_curator_off_the_list() {
    let store = world();
    assert_eq!(
        validate_delete_link_all_curators(
            &store,
            &unlink(y(), 9),
            &link(y(), 8),
            all_curators(),
            action_of(k()),
            &vec![]
        ),
        valid()
    );
    assert_eq!(
        validate_delete_link_all_curators(
            &store,
            &unlink(x(), 9),
            &link(y(), 8),
            all_curators(),
            action_of(k()),
            &vec![]
        ),
        invalid(Reason::AllCuratorsLinkDeleteByOther)
    );
}

#[test]
fn curator_lists_a_collective() {
    let store = world();
    assert_eq!(
        validate_create_link_curator_to_developer_collectives(
            &store,
            &link(y(), 8),
            action_of(k()),
            action_of(c()),
            &vec![]
        ),
        valid()
    );
    assert_eq!(
        validate_create_link_curator_to_developer_collectives(
            &store,
            &link(x(), 8),
            action_of(k()),
            action_of(c()),
            &vec![]
        ),
        invalid(Reason::CuratorToCollectiveLinkByOther)
    );
    assert_eq!(
        validate_create_link_curator_to_developer_collectives(
            &store,
            &link(y(), 8),
            action_of(k()),
            action_of(t()),
            &vec![]
        ),
        Err(ValidationError::Deserialize)
    );
    assert_eq!(
        validate_create_link_curator_to_developer_collectives(
            &store,
            &link(y(), 8),
            action_of(k()),
            action_of(rid(60)),
            &vec![]
        ),
        guest(GuestError::NoEntry)
    );
}

#[test]
fn collective_is_listed_by_a_curator() {
    let store = world();
    assert_eq!(
        validate_create_link_developer_collective_to_curators(
            &store,
            &link(y(), 8),
            action_of(c()),
            action_of(k()),
            &vec![]
        ),
        valid()
    );
    assert_eq!(
        validate_create_link_developer_collective_to_curators(
            &store,
            &link(x(), 8),
            action_of(c()),
            action_of(k()),
            &vec![]
        ),
        invalid(Reason::CollectiveToCuratorLinkByOther)
    );
    assert_eq!(
        validate_create_link_developer_collective_to_curators(
            &store,
            &link(y(), 8),
            action_of(k()),
            action_of(k()),
            &vec![]
        ),
        Err(ValidationError::Deserialize)
    );
    assert_eq!(
        validate_create_link_developer_collective_to_curators(
            &store,
            &link(y(), 8),
            action_of(c()),
            entry_hash(),
            &vec![]
        ),
        guest(GuestError::NoActionHash)
    );
}

#[test]
fn maker_removes_the_edges_between_curator_and_collective() {
    let store = world();
    assert_eq!(
        validate_delete_link_curator_to_developer_collectives(
            &store,
            &unlink(y(), 9),
            &link(y(), 8),
            action_of(k()),
            action_of(c()),
            &vec![]
        ),
        valid()
    );
    assert_eq!(
        validate_delete_link_curator_to_developer_collectives(
            &store,
            &unlink(x(), 9),
            &link(y(), 8),
            action_of(k()),
            action_of(c()),
            &vec![]
        ),
        invalid(Reason::CuratorCollectiveLinkDeleteByOther)
    );
    assert_eq!(
        validate_delete_link_developer_collective_to_curators(
            &store,
            &unlink(y(), 9),
            &link(y(), 8),
            action_of(c()),
            action_of(k()),
            &vec![]
        ),
        valid()
    );
    assert_eq!(
        validate_delete_link_developer_collective_to_curators(
            &store,
            &unlink(x(), 9),
            &link(y(), 8),
            action_of(c()),
            action_of(k()),
            &vec![]
        ),
        invalid(Reason::CuratorCollectiveLinkDeleteByOther)
    );
}

#[test]
fn curator_lists_a_tool() {
    let store = world();
    assert_eq!(
        validate_create_link_curator_to_tools(
            &store,
            &link(y(), 8),
            action_of(k()),
            action_of(t()),
            &vec![]
        ),
        valid()
    );
    assert_eq!(
        validate_create_link_curator_to_tools(
            &store,
            &link(x(), 8),
            action_of(k()),
            action_of(t()),
            &vec![]
        ),
        invalid(Reason::CuratorToToolLinkByOther)
    );
    assert_eq!(
        validate_create_link_curator_to_tools(
            &store,
            &link(y(), 8),
            action_of(k()),
            action_of(c()),
            &vec![]
        ),
        Err(ValidationError::Deserialize)
    );
    assert_eq!(
        validate_create_link_curator_to_tools(
            &store,
            &link(y(), 8),
            action_of(k()),
            action_of(rid(31)),
            &vec![]
        ),
        missing(rid(31))
    );
}

#[test]
fn tool_is_listed_by_a_curator() {
    let store = world();
    assert_eq!(
        validate_create_link_tool_to_curators(
            &store,
            &link(y(), 8),
            action_of(t()),
            action_of(k()),
            &vec![]
        ),
        valid()
    );
    assert_eq!(
        validate_create_link_tool_to_curators(
            &store,
            &link(x(), 8),
            action_of(t()),
            action_of(k()),
            &vec![]
        ),
        invalid(Reason::ToolToCuratorLinkByOther)
    );
    assert_eq!(
        validate_create_link_tool_to_curators(
            &store,
            &link(y(), 8),
            action_of(rid(60)),
            action_of(k()),
            &vec![]
        ),
        guest(GuestError::NoEntry)
    );
}

#[test]
fn maker_removes_the_edges_between_curator_and_tool() {
    let store = world();
    assert_eq!(
        validate_delete_link_curator_to_tools(
            &store,
            &unlink(y(), 9),
            &link(y(), 8),
            action_of(k()),
            action_of(t()),
            &vec![]
        ),
        valid()
    );
    assert_eq!(
        validate_delete_link_curator_to_tools(
            &store,
            &unlink(x(), 9),
            &link(y(), 8),
            action_of(k()),
            action_of(t()),
            &vec![]
        ),
        invalid(Reason::CuratorToToolLinkDeleteByOther)
    );
    assert_eq!(
        validate_delete_link_tool_to_curators(
            &store,
            &unlink(y(), 9),
            &link(y(), 8),
            action_of(t()),
            action_of(k()),
            &vec![]
        ),
        valid()
    );
    assert_eq!(
        validate_delete_link_tool_to_curators(
            &store,
            &unlink(x(), 9),
            &link(y(), 8),
            action_of(t()),
            action_of(k()),
            &vec![]
        ),
        invalid(Reason::ToolToCuratorLinkDeleteByOther)
    );
}
