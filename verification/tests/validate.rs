use tool_library::hash::{EntryId, ExternalId, HashError, LinkableHash, Principal, RevisionId};
use tool_library::integrity::contributor_permission::ContributorPermission;
use tool_library::integrity::contributor_permission_claim::ContributorPermissionClaim;
use tool_library::integrity::curator::Curator;
use tool_library::integrity::developer_collective::DeveloperCollective;
use tool_library::integrity::op::{FlatOp, OpActivity, OpDelete, OpEntry, OpRecord, OpUpdate};
use tool_library::integrity::tool::Tool;
use tool_library::integrity::{
    genesis_self_check, validate, validate_agent_joining, validate_create_entry,
    validate_create_link, validate_delete_entry, validate_delete_link, validate_register_delete,
    validate_register_update, validate_update_entry, EntryTypes, LinkTypes, TagKind,
};
use tool_library::outcome::{GuestError, Reason, ValidateCallbackResult, ValidationError};
use tool_library::record::{
    Action, AgentValidationPkg, Create, CreateLink, Delete, DeleteLink, Entry,
    EntryCreationAction, EntryType, EntryVisibility, OtherAction, Record, RecordEntry, Timestamp,
    Update,
};
use tool_library::store::{Anchors, ContentStore};

fn agent(n: u8) -> Principal {
    Principal { bytes: [n; 36] }
}

fn rid(n: u8) -> RevisionId {
    RevisionId { bytes: [n; 36] }
}

fn x() -> Principal {
    agent(1)
}

fn y() -> Principal {
    agent(2)
}

fn z() -> Principal {
    agent(3)
}

fn valid() -> Result<ValidateCallbackResult, ValidationError> {
    Ok(ValidateCallbackResult::Valid)
}

fn invalid(reason: Reason) -> Result<ValidateCallbackResult, ValidationError> {
    Ok(ValidateCallbackResult::Invalid(reason))
}

fn guest(error: GuestError) -> Result<ValidateCallbackResult, ValidationError> {
    Err(ValidationError::Guest(error))
}

fn missing(id: RevisionId) -> Result<ValidateCallbackResult, ValidationError> {
    Err(ValidationError::DependencyMissing(id))
}

fn public() -> EntryType {
    EntryType::App { visibility: EntryVisibility::Public }
}

fn create(author: Principal, time: i64) -> Create {
    Create { author, timestamp: Timestamp(time), prev_action: rid(0), entry_type: public() }
}

fn created(id: RevisionId, author: Principal, time: i64, entry: EntryTypes) -> Record {
    Record {
        action_address: id,
        action: Action::Create(create(author, time)),
        entry: RecordEntry::Present(Entry::App(entry)),
    }
}

fn bare(id: RevisionId, author: Principal, time: i64) -> Record {
    Record {
        action_address: id,
        action: Action::Create(create(author, time)),
        entry: RecordEntry::NA,
    }
}

fn collective() -> DeveloperCollective {
    DeveloperCollective {
        name: "Lightningrod Labs".to_string(),
        description: None,
        website: None,
        contact: None,
        icon: "icon".to_string(),
        meta_data: None,
    }
}

fn curator() -> Curator {
    Curator {
        name: "A curator".to_string(),
        description: "Curates".to_string(),
        icon: "icon".to_string(),
        website: None,
        email: None,
        meta_data: None,
    }
}

fn tool(developer_collective: RevisionId, permission_hash: RevisionId) -> Tool {
    Tool {
        developer_collective,
        permission_hash,
        title: "A tool".to_string(),
        subtitle: "that helps".to_string(),
        description: "It helps.".to_string(),
        icon: "icon".to_string(),
        version: "0.1.0".to_string(),
        source: "{}".to_string(),
        hashes: "{}".to_string(),
        changelog: None,
        meta_data: None,
        deprecation: None,
    }
}

fn anchors() -> Anchors {
    Anchors {
        all_agents: EntryId { bytes: [201; 36] },
        all_curators: EntryId { bytes: [202; 36] },
        all_developer_collectives: EntryId { bytes: [203; 36] },
    }
}

fn store_of(records: Vec<Record>) -> ContentStore {
    let mut store = ContentStore::new(anchors());
    for record in records {
        assert!(store.insert(record));
    }
    store
}

fn link(author: Principal, time: i64) -> CreateLink {
    CreateLink {
        author,
        timestamp: Timestamp(time),
        base_address: LinkableHash::Action(rid(0)),
        target_address: LinkableHash::Action(rid(0)),
        link_type: None,
        tag: vec![],
    }
}

fn unlink(author: Principal, time: i64) -> DeleteLink {
    DeleteLink {
        author,
        timestamp: Timestamp(time),
        prev_action: rid(0),
        base_address: LinkableHash::Action(rid(0)),
        link_add_address: rid(99),
    }
}

fn action_of(id: RevisionId) -> LinkableHash {
    LinkableHash::Action(id)
}

fn entry_hash() -> LinkableHash {
    LinkableHash::Entry(EntryId { bytes: [77; 36] })
}

fn external() -> LinkableHash {
    LinkableHash::External(ExternalId { bytes: [78; 36] })
}

const HOUR: i64 = 3_600_000_000;

fn c() -> RevisionId {
    rid(10)
}

fn g() -> RevisionId {
    rid(20)
}

fn t() -> RevisionId {
    rid(30)
}

fn k() -> RevisionId {
    rid(50)
}

fn permission() -> ContributorPermission {
    ContributorPermission { for_collective: c(), for_agent: y(), expiry: Some(Timestamp(HOUR)) }
}

fn claim() -> ContributorPermissionClaim {
    ContributorPermissionClaim { permission_hash: g() }
}

fn edge(
    id: RevisionId,
    author: Principal,
    time: i64,
    base: LinkableHash,
    target: LinkableHash,
    link_type: Option<LinkTypes>,
    tag: Vec<u8>,
) -> Record {
    Record {
        action_address: id,
        action: Action::CreateLink(CreateLink {
            author,
            timestamp: Timestamp(time),
            base_address: base,
            target_address: target,
            link_type,
            tag,
        }),
        entry: RecordEntry::NA,
    }
}

/// A collective `c` of `x`, a permission `g` for `y` that ends one hour in,
/// a tool `t` that `y` wrote under it, a curator `k` of `z`, and the edges
/// that go with them.
fn world() -> ContentStore {
    store_of(vec![
        created(c(), x(), 0, EntryTypes::DeveloperCollective(collective())),
        created(g(), x(), 1, EntryTypes::ContributorPermission(permission())),
        created(t(), y(), 2, EntryTypes::Tool(tool(c(), g()))),
        created(k(), z(), 3, EntryTypes::Curator(curator())),
        created(rid(40), y(), 4, EntryTypes::ContributorPermissionClaim(claim())),
        bare(rid(60), x(), 5),
        edge(
            rid(70),
            y(),
            6,
            action_of(c()),
            action_of(t()),
            Some(LinkTypes::DeveloperCollectiveToTools),
            g().get_raw_39(),
        ),
        edge(
            rid(71),
            x(),
            6,
            action_of(c()),
            action_of(rid(11)),
            Some(LinkTypes::DeveloperCollectiveUpdates),
            vec![],
        ),
        edge(rid(72), z(), 6, action_of(k()), action_of(t()), None, vec![]),
        Record {
            action_address: rid(80),
            action: Action::AgentValidationPkg(AgentValidationPkg {
                author: z(),
                timestamp: Timestamp(0),
                membrane_proof: None,
            }),
            entry: RecordEntry::NA,
        },
        Record {
            action_address: rid(81),
            action: Action::Other(OtherAction { author: z(), timestamp: Timestamp(0) }),
            entry: RecordEntry::NA,
        },
    ])
}

fn update(author: Principal, time: i64, original: RevisionId) -> Update {
    Update {
        author,
        timestamp: Timestamp(time),
        original_action_address: original,
        entry_type: public(),
    }
}

fn delete(author: Principal, deletes: RevisionId) -> Delete {
    Delete { author, timestamp: Timestamp(9), deletes_address: deletes }
}

#[test]
fn nothing_is_asked_at_genesis() {
    assert_eq!(genesis_self_check(), valid());
}

#[test]
fn every_agent_may_join() {
    assert_eq!(validate_agent_joining(z(), &None), valid());
    assert_eq!(validate_agent_joining(z(), &Some(vec![1, 2, 3])), valid());
}

#[test]
fn verdicts_and_failures() {
    assert!(ValidateCallbackResult::Valid.is_valid());
    assert!(!ValidateCallbackResult::Invalid(Reason::Expired).is_valid());
    assert!(ValidationError::DependencyMissing(c()).is_retryable());
    assert!(!ValidationError::Guest(GuestError::NoEntry).is_retryable());
    assert!(!ValidationError::Deserialize.is_retryable());
}

#[test]
fn stored_entry_of_each_kind() {
    let store = world();
    let by = |author: Principal, time: i64, app_entry: EntryTypes| {
        validate(
            &store,
            &FlatOp::StoreEntry(OpEntry::CreateEntry { app_entry, action: create(author, time) }),
        )
    };
    assert_eq!(by(z(), 5, EntryTypes::Curator(curator())), valid());
    assert_eq!(by(z(), 5, EntryTypes::DeveloperCollective(collective())), valid());
    assert_eq!(by(x(), 5, EntryTypes::ContributorPermission(permission())), valid());
    assert_eq!(
        by(z(), 5, EntryTypes::ContributorPermission(permission())),
        invalid(Reason::PermissionIssuedByOther)
    );
    assert_eq!(by(y(), 5, EntryTypes::ContributorPermissionClaim(claim())), valid());
    assert_eq!(by(y(), 5, EntryTypes::Tool(tool(c(), g()))), valid());
    assert_eq!(by(x(), 5, EntryTypes::Tool(tool(c(), c()))), valid());
    assert_eq!(by(z(), 5, EntryTypes::Tool(tool(c(), c()))), invalid(Reason::NoPermission));
    assert_eq!(by(y(), 2 * HOUR, EntryTypes::Tool(tool(c(), g()))), invalid(Reason::Expired));
}

#[test]
fn stored_entry_of_an_update_is_held_to_the_rule_on_updates() {
    let store = world();
    let mut long = collective();
    long.name = "x".repeat(51);
    assert_eq!(
        validate(
            &store,
            &FlatOp::StoreEntry(OpEntry::UpdateEntry {
                app_entry: EntryTypes::DeveloperCollective(long.clone()),
                action: update(x(), 9, c()),
            })
        ),
        invalid(Reason::NameTooLong)
    );
    assert_eq!(
        validate(
            &store,
            &FlatOp::StoreEntry(OpEntry::UpdateEntry {
                app_entry: EntryTypes::DeveloperCollective(long),
                action: update(z(), 9, c()),
            })
        ),
        invalid(Reason::CollectiveUpdateByOther)
    );
    assert_eq!(
        validate(
            &store,
            &FlatOp::StoreEntry(OpEntry::UpdateEntry {
                app_entry: EntryTypes::DeveloperCollective(collective()),
                action: update(x(), 9, c()),
            })
        ),
        valid()
    );
    assert_eq!(
        validate(
            &store,
            &FlatOp::StoreEntry(OpEntry::UpdateEntry {
                app_entry: EntryTypes::Curator(curator()),
                action: update(x(), 9, k()),
            })
        ),
        invalid(Reason::CuratorUpdateByOther)
    );
    assert_eq!(
        validate(
            &store,
            &FlatOp::StoreEntry(OpEntry::UpdateEntry {
                app_entry: EntryTypes::Curator(curator()),
                action: update(z(), 9, rid(94)),
            })
        ),
        missing(rid(94))
    );
    assert_eq!(
        validate(
            &store,
            &FlatOp::StoreEntry(OpEntry::UpdateEntry {
                app_entry: EntryTypes::Tool(tool(c(), g())),
                action: update(y(), HOUR + 1, t()),
            })
        ),
        invalid(Reason::Expired)
    );
    assert_eq!(
        validate(
            &store,
            &FlatOp::StoreEntry(OpEntry::UpdateEntry {
                app_entry: EntryTypes::Tool(tool(c(), g())),
                action: update(y(), HOUR, t()),
            })
        ),
        valid()
    );
}

#[test]
fn what_the_library_does_not_define_is_admitted() {
    let store = world();
    assert_eq!(validate(&store, &FlatOp::StoreEntry(OpEntry::Other)), valid());
    assert_eq!(validate(&store, &FlatOp::RegisterUpdate(OpUpdate::Other)), valid());
    assert_eq!(validate(&store, &FlatOp::RegisterDelete(OpDelete::Other)), valid());
    assert_eq!(validate(&store, &FlatOp::StoreRecord(OpRecord::Other)), valid());
    assert_eq!(validate(&store, &FlatOp::RegisterAgentActivity(OpActivity::Other)), valid());
}

fn registered_update(
    store: &ContentStore,
    author: Principal,
    app_entry: EntryTypes,
    original_author: Principal,
    original_app_entry: EntryTypes,
) -> Result<ValidateCallbackResult, ValidationError> {
    validate(
        store,
        &FlatOp::RegisterUpdate(OpUpdate::Entry {
            original_action: EntryCreationAction::Create(create(original_author, 1)),
            original_app_entry,
            app_entry,
            action: update(author, 9, rid(0)),
        }),
    )
}

#[test]
fn update_of_each_kind() {
    let store = world();
    assert_eq!(
        registered_update(
            &store,
            z(),
            EntryTypes::Curator(curator()),
            z(),
            EntryTypes::Curator(curator())
        ),
        valid()
    );
    assert_eq!(
        registered_update(
            &store,
            x(),
            EntryTypes::Curator(curator()),
            z(),
            EntryTypes::Curator(curator())
        ),
        invalid(Reason::CuratorUpdateByOther)
    );
    assert_eq!(
        registered_update(
            &store,
            x(),
            EntryTypes::DeveloperCollective(collective()),
            x(),
            EntryTypes::DeveloperCollective(collective())
        ),
        valid()
    );
    assert_eq!(
        registered_update(
            &store,
            y(),
            EntryTypes::DeveloperCollective(collective()),
            x(),
            EntryTypes::DeveloperCollective(collective())
        ),
        invalid(Reason::CollectiveUpdateByOther)
    );
    assert_eq!(
        registered_update(
            &store,
            x(),
            EntryTypes::ContributorPermission(permission()),
            x(),
            EntryTypes::ContributorPermission(permission())
        ),
        invalid(Reason::PermissionUpdated)
    );
    assert_eq!(
        registered_update(
            &store,
            y(),
            EntryTypes::ContributorPermissionClaim(claim()),
            y(),
            EntryTypes::ContributorPermissionClaim(claim())
        ),
        invalid(Reason::ClaimUpdated)
    );
    assert_eq!(
        registered_update(
            &store,
            y(),
            EntryTypes::Tool(tool(c(), g())),
            y(),
            EntryTypes::Tool(tool(c(), g()))
        ),
        valid()
    );
}

#[test]
fn update_cannot_move_a_tool_to_another_collective() {
    let store = world();
    for author in [x(), y(), z()] {
        for permission_hash in [c(), g(), rid(11), rid(99)] {
            assert_eq!(
                registered_update(
                    &store,
                    author,
                    EntryTypes::Tool(tool(rid(11), permission_hash)),
                    y(),
                    EntryTypes::Tool(tool(c(), g()))
                ),
                invalid(Reason::CollectiveChanged)
            );
        }
    }
}

#[test]
fn update_cannot_change_the_kind_of_an_entry() {
    let store = world();
    assert_eq!(
        registered_update(
            &store,
            x(),
            EntryTypes::Tool(tool(c(), c())),
            x(),
            EntryTypes::DeveloperCollective(collective())
        ),
        invalid(Reason::EntryKindChanged)
    );
    assert_eq!(
        registered_update(
            &store,
            z(),
            EntryTypes::Curator(curator()),
            z(),
            EntryTypes::ContributorPermissionClaim(claim())
        ),
        invalid(Reason::EntryKindChanged)
    );
}

fn registered_delete(
    store: &ContentStore,
    author: Principal,
    original_author: Principal,
    original_app_entry: EntryTypes,
) -> Result<ValidateCallbackResult, ValidationError> {
    validate(
        store,
        &FlatOp::RegisterDelete(OpDelete::Entry {
            original_action: EntryCreationAction::Create(create(original_author, 1)),
            original_app_entry,
            action: delete(author, rid(0)),
        }),
    )
}

#[test]
fn delete_of_each_kind() {
    let store = world();
    assert_eq!(registered_delete(&store, z(), z(), EntryTypes::Curator(curator())), valid());
    assert_eq!(
        registered_delete(&store, x(), z(), EntryTypes::Curator(curator())),
        invalid(Reason::CuratorDeleteByOther)
    );
    assert_eq!(
        registered_delete(&store, x(), x(), EntryTypes::DeveloperCollective(collective())),
        valid()
    );
    assert_eq!(
        registered_delete(&store, y(), x(), EntryTypes::DeveloperCollective(collective())),
        invalid(Reason::CollectiveDeleteByOther)
    );
    assert_eq!(
        registered_delete(&store, x(), x(), EntryTypes::ContributorPermission(permission())),
        invalid(Reason::PermissionDeleted)
    );
    assert_eq!(
        registered_delete(&store, y(), y(), EntryTypes::ContributorPermissionClaim(claim())),
        invalid(Reason::ClaimDeleted)
    );
    assert_eq!(registered_delete(&store, y(), y(), EntryTypes::Tool(tool(c(), g()))), valid());
    assert_eq!(registered_delete(&store, x(), y(), EntryTypes::Tool(tool(c(), g()))), valid());
    assert_eq!(
        registered_delete(&store, z(), y(), EntryTypes::Tool(tool(c(), g()))),
        invalid(Reason::NotCollectiveCreatorNorAuthor)
    );
}

fn new_link(author: Principal, time: i64) -> CreateLink {
    link(author, time)
}

#[test]
fn new_edge_of_each_kind() {
    let store = world();
    let anchors = anchors();
    let cases: Vec<(LinkTypes, Principal, LinkableHash, LinkableHash, Vec<u8>)> = vec![
        (LinkTypes::CuratorUpdates, z(), action_of(k()), action_of(k()), vec![]),
        (LinkTypes::DeveloperCollectiveUpdates, x(), action_of(c()), action_of(c()), vec![]),
        (
            LinkTypes::DeveloperCollectiveToContributorPermissions,
            x(),
            action_of(c()),
            action_of(g()),
            y().get_raw_39(),
        ),
        (
            LinkTypes::ContributorToContributorPermissions,
            x(),
            LinkableHash::from_agent_pub_key(y()),
            action_of(g()),
            c().get_raw_39(),
        ),
        (
            LinkTypes::DeveloperCollectiveToTools,
            y(),
            action_of(c()),
            action_of(t()),
            g().get_raw_39(),
        ),
        (LinkTypes::ToolUpdates, y(), action_of(t()), action_of(t()), g().get_raw_39()),
        (LinkTypes::ToolToTag, y(), action_of(t()), entry_hash(), g().get_raw_39()),
        (
            LinkTypes::AllAgents,
            z(),
            LinkableHash::Entry(anchors.all_agents),
            LinkableHash::from_agent_pub_key(z()),
            vec![],
        ),
        (
            LinkTypes::AllCurators,
            z(),
            LinkableHash::Entry(anchors.all_curators),
            action_of(k()),
            vec![],
        ),
        (
            LinkTypes::AllDeveloperCollectives,
            x(),
            LinkableHash::Entry(anchors.all_developer_collectives),
            action_of(c()),
            vec![],
        ),
        (
            LinkTypes::DeveloperCollectiveToOwner,
            x(),
            action_of(c()),
            LinkableHash::from_agent_pub_key(x()),
            vec![],
        ),
        (LinkTypes::CuratorToDeveloperCollectives, z(), action_of(k()), action_of(c()), vec![]),
        (LinkTypes::DeveloperCollectiveToCurators, z(), action_of(c()), action_of(k()), vec![]),
        (LinkTypes::CuratorToTools, z(), action_of(k()), action_of(t()), vec![]),
        (LinkTypes::ToolToCurators, z(), action_of(t()), action_of(k()), vec![]),
    ];
    assert_eq!(cases.len(), 15);
    for (link_type, author, base_address, target_address, tag) in cases {
        let action = new_link(author, 7);
        assert_eq!(
            validate_create_link(&store, link_type, &action, base_address, target_address, &tag),
            valid(),
            "{:?}",
            link_type
        );
        assert_eq!(
            validate(
                &store,
                &FlatOp::RegisterCreateLink {
                    link_type,
                    base_address,
                    target_address,
                    tag: tag.clone(),
                    action: action.clone(),
                }
            ),
            valid(),
            "{:?}",
            link_type
        );
        assert_eq!(
            validate(
                &store,
                &FlatOp::StoreRecord(OpRecord::CreateLink {
                    base_address,
                    target_address,
                    tag,
                    link_type,
                    action,
                })
            ),
            valid(),
            "{:?}",
            link_type
        );
    }
}

#[test]
fn new_edge_by_the_wrong_principal_of_each_kind() {
    let store = world();
    let anchors = anchors();
    let cases: Vec<(LinkTypes, Principal, LinkableHash, LinkableHash, Vec<u8>, Reason)> = vec![
        (
            LinkTypes::CuratorUpdates,
            x(),
            action_of(k()),
            action_of(k()),
            vec![],
            Reason::CuratorUpdateLinkByOther,
        ),
        (
            LinkTypes::DeveloperCollectiveUpdates,
            y(),
            action_of(c()),
            action_of(c()),
            vec![],
            Reason::CollectiveUpdateLinkByOther,
        ),
        (
            LinkTypes::DeveloperCollectiveToContributorPermissions,
            y(),
            action_of(c()),
            action_of(g()),
            y().get_raw_39(),
            Reason::PermissionLinkByOther,
        ),
        (
            LinkTypes::ContributorToContributorPermissions,
            y(),
            LinkableHash::from_agent_pub_key(y()),
            action_of(g()),
            c().get_raw_39(),
            Reason::ContributorLinkByOther,
        ),
        (
            LinkTypes::DeveloperCollectiveToTools,
            z(),
            action_of(c()),
            action_of(t()),
            g().get_raw_39(),
            Reason::WrongAgent,
        ),
        (
            LinkTypes::ToolUpdates,
            z(),
            action_of(t()),
            action_of(t()),
            c().get_raw_39(),
            Reason::NoPermission,
        ),
        (
            LinkTypes::ToolToTag,
            z(),
            action_of(t()),
            entry_hash(),
            g().get_raw_39(),
            Reason::WrongAgent,
        ),
        (
            LinkTypes::AllAgents,
            z(),
            LinkableHash::Entry(anchors.all_agents),
            LinkableHash::from_agent_pub_key(x()),
            vec![],
            Reason::AllAgentsLinkToOther,
        ),
        (
            LinkTypes::AllCurators,
            x(),
            LinkableHash::Entry(anchors.all_curators),
            action_of(k()),
            vec![],
            Reason::AllCuratorsLinkByOther,
        ),
        (
            LinkTypes::AllDeveloperCollectives,
            z(),
            LinkableHash::Entry(anchors.all_developer_collectives),
            action_of(c()),
            vec![],
            Reason::AllCollectivesLinkByOther,
        ),
        (
            LinkTypes::DeveloperCollectiveToOwner,
            z(),
            action_of(c()),
            LinkableHash::from_agent_pub_key(x()),
            vec![],
            Reason::OwnerLinkByOther,
        ),
        (
            LinkTypes::CuratorToDeveloperCollectives,
            x(),
            action_of(k()),
            action_of(c()),
            vec![],
            Reason::CuratorToCollectiveLinkByOther,
        ),
        (
            LinkTypes::DeveloperCollectiveToCurators,
            x(),
            action_of(c()),
            action_of(k()),
            vec![],
            Reason::CollectiveToCuratorLinkByOther,
        ),
        (
            LinkTypes::CuratorToTools,
            x(),
            action_of(k()),
            action_of(t()),
            vec![],
            Reason::CuratorToToolLinkByOther,
        ),
        (
            LinkTypes::ToolToCurators,
            x(),
            action_of(t()),
            action_of(k()),
            vec![],
            Reason::ToolToCuratorLinkByOther,
        ),
    ];
    assert_eq!(cases.len(), 15);
    for (link_type, author, base_address, target_address, tag, reason) in cases {
        assert_eq!(
            validate(
                &store,
                &FlatOp::RegisterCreateLink {
                    link_type,
                    base_address,
                    target_address,
                    tag,
                    action: new_link(author, 7),
                }
            ),
            invalid(reason),
            "{:?}",
            link_type
        );
    }
}

#[test]
fn new_edge_with_a_bad_tag() {
    let store = world();
    assert_eq!(
        validate(
            &store,
            &FlatOp::RegisterCreateLink {
                link_type: LinkTypes::DeveloperCollectiveToTools,
                base_address: action_of(c()),
                target_address: action_of(t()),
                tag: vec![1, 2],
                action: new_link(y(), 7),
            }
        ),
        invalid(Reason::TagNotActionHash(HashError::BadSize))
    );
    assert_eq!(
        validate(
            &store,
            &FlatOp::RegisterCreateLink {
                link_type: LinkTypes::DeveloperCollectiveToContributorPermissions,
                base_address: action_of(c()),
                target_address: action_of(g()),
                tag: vec![0; 39],
                action: new_link(x(), 7),
            }
        ),
        invalid(Reason::TagNotAgentKey(HashError::BadPrefix))
    );
}

fn removal(author: Principal, time: i64, prev_action: RevisionId) -> DeleteLink {
    DeleteLink {
        author,
        timestamp: Timestamp(time),
        prev_action,
        base_address: action_of(c()),
        link_add_address: rid(70),
    }
}

#[test]
fn removal_of_an_edge_of_each_kind() {
    let store = world();
    let by = |link_type: LinkTypes, author: Principal| {
        validate(
            &store,
            &FlatOp::RegisterDeleteLink {
                link_type,
                base_address: action_of(t()),
                target_address: action_of(t()),
                tag: vec![],
                original_action: new_link(y(), 6),
                action: removal(author, 9, rid(40)),
            },
        )
    };
    assert_eq!(by(LinkTypes::CuratorUpdates, y()), invalid(Reason::CuratorUpdatesLinkDeleted));
    assert_eq!(
        by(LinkTypes::DeveloperCollectiveUpdates, y()),
        invalid(Reason::CollectiveUpdatesLinkDeleted)
    );
    assert_eq!(
        by(LinkTypes::DeveloperCollectiveToContributorPermissions, y()),
        invalid(Reason::CollectiveToPermissionsLinkDeleted)
    );
    assert_eq!(
        by(LinkTypes::ContributorToContributorPermissions, y()),
        invalid(Reason::ContributorToPermissionsLinkDeleted)
    );
    assert_eq!(by(LinkTypes::DeveloperCollectiveToTools, y()), valid());
    assert_eq!(by(LinkTypes::ToolUpdates, y()), invalid(Reason::ToolUpdatesLinkDeleted));
    assert_eq!(by(LinkTypes::ToolToTag, y()), valid());
    assert_eq!(by(LinkTypes::AllAgents, y()), invalid(Reason::AllAgentsLinkDeleted));
    assert_eq!(by(LinkTypes::AllCurators, y()), valid());
    assert_eq!(by(LinkTypes::AllCurators, x()), invalid(Reason::AllCuratorsLinkDeleteByOther));
    assert_eq!(by(LinkTypes::AllDeveloperCollectives, y()), valid());
    assert_eq!(
        by(LinkTypes::AllDeveloperCollectives, x()),
        invalid(Reason::AllCollectivesLinkDeleteByOther)
    );
    assert_eq!(by(LinkTypes::DeveloperCollectiveToOwner, y()), valid());
    assert_eq!(
        by(LinkTypes::DeveloperCollectiveToOwner, x()),
        invalid(Reason::OwnerLinkDeleteByOther)
    );
    assert_eq!(by(LinkTypes::CuratorToDeveloperCollectives, y()), valid());
    assert_eq!(
        by(LinkTypes::CuratorToDeveloperCollectives, x()),
        invalid(Reason::CuratorCollectiveLinkDeleteByOther)
    );
    assert_eq!(by(LinkTypes::DeveloperCollectiveToCurators, y()), valid());
    assert_eq!(
        by(LinkTypes::DeveloperCollectiveToCurators, x()),
        invalid(Reason::CuratorCollectiveLinkDeleteByOther)
    );
    assert_eq!(by(LinkTypes::CuratorToTools, y()), valid());
    assert_eq!(
        by(LinkTypes::CuratorToTools, x()),
        invalid(Reason::CuratorToToolLinkDeleteByOther)
    );
    assert_eq!(by(LinkTypes::ToolToCurators, y()), valid());
    assert_eq!(
        by(LinkTypes::ToolToCurators, x()),
        invalid(Reason::ToolToCuratorLinkDeleteByOther)
    );
}

#[test]
fn removal_of_an_edge_through_the_dispatcher_of_edges() {
    let store = world();
    assert_eq!(
        validate_delete_link(
            &store,
            LinkTypes::DeveloperCollectiveToTools,
            &removal(z(), 9, rid(0)),
            &new_link(y(), 6),
            action_of(c()),
            action_of(t()),
            &vec![]
        ),
        invalid(Reason::NotCollectiveCreatorNorAuthor)
    );
}

#[test]
fn record_of_a_new_entry() {
    let store = world();
    assert_eq!(
        validate(
            &store,
            &FlatOp::StoreRecord(OpRecord::CreateEntry {
                app_entry: EntryTypes::Tool(tool(c(), c())),
                action: create(x(), 8),
            })
        ),
        valid()
    );
    assert_eq!(
        validate(
            &store,
            &FlatOp::StoreRecord(OpRecord::CreateEntry {
                app_entry: EntryTypes::Tool(tool(c(), c())),
                action: create(y(), 8),
            })
        ),
        invalid(Reason::NoPermission)
    );
}

fn stored_update(
    store: &ContentStore,
    original: RevisionId,
    author: Principal,
    time: i64,
    app_entry: EntryTypes,
) -> Result<ValidateCallbackResult, ValidationError> {
    validate(
        store,
        &FlatOp::StoreRecord(OpRecord::UpdateEntry {
            original_action_hash: original,
            app_entry,
            action: update(author, time, original),
        }),
    )
}

#[test]
fn record_of_an_update_of_each_kind() {
    let store = world();
    assert_eq!(stored_update(&store, k(), z(), 9, EntryTypes::Curator(curator())), valid());
    assert_eq!(
        stored_update(&store, k(), x(), 9, EntryTypes::Curator(curator())),
        invalid(Reason::CuratorUpdateByOther)
    );
    assert_eq!(
        stored_update(&store, c(), x(), 9, EntryTypes::DeveloperCollective(collective())),
        valid()
    );
    assert_eq!(
        stored_update(&store, c(), y(), 9, EntryTypes::DeveloperCollective(collective())),
        invalid(Reason::CollectiveUpdateByOther)
    );
    assert_eq!(
        stored_update(&store, g(), x(), 9, EntryTypes::ContributorPermission(permission())),
        invalid(Reason::PermissionUpdated)
    );
    assert_eq!(
        stored_update(&store, rid(40), y(), 9, EntryTypes::ContributorPermissionClaim(claim())),
        invalid(Reason::ClaimUpdated)
    );
    assert_eq!(stored_update(&store, t(), y(), 9, EntryTypes::Tool(tool(c(), g()))), valid());
    assert_eq!(stored_update(&store, t(), x(), 9, EntryTypes::Tool(tool(c(), c()))), valid());
}

#[test]
fn record_of_an_update_is_held_to_the_rule_on_updates_first() {
    let store = world();
    assert_eq!(
        stored_update(&store, g(), y(), 9, EntryTypes::ContributorPermission(permission())),
        invalid(Reason::PermissionUpdated)
    );
    assert_eq!(
        stored_update(&store, t(), y(), 2 * HOUR, EntryTypes::Tool(tool(c(), g()))),
        invalid(Reason::Expired)
    );
}

#[test]
fn record_of_an_update_that_moves_a_tool_is_never_admitted() {
    let store = world();
    assert_eq!(
        stored_update(&store, t(), x(), 9, EntryTypes::Tool(tool(c(), c()))),
        valid()
    );
    let mut moved = store_of(vec![]);
    assert!(moved.insert(created(c(), x(), 0, EntryTypes::DeveloperCollective(collective()))));
    assert!(moved.insert(created(rid(11), x(), 0, EntryTypes::DeveloperCollective(collective()))));
    assert!(moved.insert(created(t(), x(), 2, EntryTypes::Tool(tool(c(), c())))));
    assert_eq!(
        stored_update(&moved, t(), x(), 9, EntryTypes::Tool(tool(rid(11), rid(11)))),
        invalid(Reason::CollectiveChanged)
    );
    for author in [x(), y(), z()] {
        for permission_hash in [c(), rid(11), t(), rid(99)] {
            assert_eq!(
                stored_update(
                    &moved,
                    t(),
                    author,
                    9,
                    EntryTypes::Tool(tool(rid(11), permission_hash))
                ),
                invalid(Reason::CollectiveChanged)
            );
            assert_eq!(
                validate(
                    &moved,
                    &FlatOp::StoreEntry(OpEntry::UpdateEntry {
                        app_entry: EntryTypes::Tool(tool(rid(11), permission_hash)),
                        action: update(author, 9, t()),
                    })
                ),
                invalid(Reason::CollectiveChanged)
            );
            assert_eq!(
                validate_register_update(
                    &moved,
                    &t(),
                    &EntryTypes::Tool(tool(rid(11), permission_hash)),
                    &update(author, 9, t())
                ),
                invalid(Reason::CollectiveChanged)
            );
        }
    }
}

#[test]
fn record_of_an_update_that_passes_is_held_to_the_rule_on_new_entries() {
    let store = store_of(vec![
        bare(c(), x(), 0),
        created(t(), x(), 2, EntryTypes::Tool(tool(c(), c()))),
    ]);
    assert_eq!(
        validate_register_update(
            &store,
            &t(),
            &EntryTypes::Tool(tool(c(), c())),
            &update(x(), 9, t())
        ),
        valid()
    );
    assert_eq!(
        stored_update(&store, t(), x(), 9, EntryTypes::Tool(tool(c(), c()))),
        guest(GuestError::DependantNoEntry)
    );
}

#[test]
fn update_of_a_permission_is_refused_in_every_form() {
    let empty = store_of(vec![]);
    for store in [&world(), &empty] {
        for author in [x(), y(), z()] {
            for original in [g(), c(), rid(95)] {
                let action = update(author, 9, original);
                let entry = EntryTypes::ContributorPermission(permission());
                assert_eq!(
                    validate(
                        store,
                        &FlatOp::StoreEntry(OpEntry::UpdateEntry {
                            app_entry: entry.clone(),
                            action,
                        })
                    ),
                    invalid(Reason::PermissionUpdated)
                );
                assert_eq!(
                    validate(
                        store,
                        &FlatOp::StoreRecord(OpRecord::UpdateEntry {
                            original_action_hash: original,
                            app_entry: entry.clone(),
                            action,
                        })
                    ),
                    invalid(Reason::PermissionUpdated)
                );
                assert_eq!(
                    validate_register_update(store, &original, &entry, &action),
                    invalid(Reason::PermissionUpdated)
                );
                for original_app_entry in [
                    EntryTypes::ContributorPermission(permission()),
                    EntryTypes::Tool(tool(c(), g())),
                    EntryTypes::Curator(curator()),
                ] {
                    assert_eq!(
                        validate(
                            store,
                            &FlatOp::RegisterUpdate(OpUpdate::Entry {
                                original_action: EntryCreationAction::Create(create(x(), 1)),
                                original_app_entry,
                                app_entry: entry.clone(),
                                action,
                            })
                        ),
                        invalid(Reason::PermissionUpdated)
                    );
                }
            }
        }
    }
}

#[test]
fn update_of_a_claim_is_refused_in_every_form() {
    let store = store_of(vec![]);
    let action = update(y(), 9, rid(40));
    let entry = EntryTypes::ContributorPermissionClaim(claim());
    assert_eq!(
        validate(
            &store,
            &FlatOp::StoreEntry(OpEntry::UpdateEntry { app_entry: entry.clone(), action })
        ),
        invalid(Reason::ClaimUpdated)
    );
    assert_eq!(
        validate_register_update(&store, &rid(40), &entry, &action),
        invalid(Reason::ClaimUpdated)
    );
    assert_eq!(
        validate(
            &store,
            &FlatOp::RegisterUpdate(OpUpdate::Entry {
                original_action: EntryCreationAction::Create(create(y(), 1)),
                original_app_entry: EntryTypes::Tool(tool(c(), g())),
                app_entry: entry,
                action,
            })
        ),
        invalid(Reason::ClaimUpdated)
    );
}

#[test]
fn update_with_what_it_updates_read_from_the_store() {
    let store = world();
    let by = |original: RevisionId, author: Principal, time: i64, entry: EntryTypes| {
        validate_register_update(&store, &original, &entry, &update(author, time, original))
    };
    assert_eq!(by(k(), z(), 9, EntryTypes::Curator(curator())), valid());
    assert_eq!(
        by(k(), x(), 9, EntryTypes::Curator(curator())),
        invalid(Reason::CuratorUpdateByOther)
    );
    assert_eq!(by(c(), x(), 9, EntryTypes::DeveloperCollective(collective())), valid());
    assert_eq!(by(t(), y(), HOUR, EntryTypes::Tool(tool(c(), g()))), valid());
    assert_eq!(by(t(), y(), HOUR + 1, EntryTypes::Tool(tool(c(), g()))), invalid(Reason::Expired));
    assert_eq!(
        by(c(), x(), 9, EntryTypes::Tool(tool(c(), c()))),
        invalid(Reason::EntryKindChanged)
    );
    assert_eq!(
        by(rid(60), x(), 9, EntryTypes::Tool(tool(c(), c()))),
        invalid(Reason::UpdatedKindDiffers)
    );
    assert_eq!(
        by(rid(70), y(), 9, EntryTypes::Tool(tool(c(), g()))),
        invalid(Reason::UpdateOfNonEntry)
    );
    assert_eq!(by(rid(96), y(), 9, EntryTypes::Tool(tool(c(), g()))), missing(rid(96)));
}

#[test]
fn delete_with_what_it_removes_read_from_the_store() {
    let store = world();
    let by = |original: RevisionId, author: Principal| {
        validate_register_delete(&store, &original, &delete(author, original))
    };
    assert_eq!(by(k(), z()), valid());
    assert_eq!(by(k(), x()), invalid(Reason::CuratorDeleteByOther));
    assert_eq!(by(c(), y()), invalid(Reason::CollectiveDeleteByOther));
    for author in [x(), y(), z()] {
        assert_eq!(by(g(), author), invalid(Reason::PermissionDeleted));
        assert_eq!(by(rid(40), author), invalid(Reason::ClaimDeleted));
    }
    assert_eq!(by(t(), z()), invalid(Reason::NotCollectiveCreatorNorAuthor));
    assert_eq!(by(rid(70), y()), invalid(Reason::DeleteOfNonEntry));
    assert_eq!(by(rid(60), x()), invalid(Reason::DeletedPublicEntryMissing));
    assert_eq!(by(rid(97), x()), missing(rid(97)));
}

#[test]
fn record_of_an_update_of_something_that_carries_no_entry() {
    let store = world();
    assert_eq!(
        stored_update(&store, rid(70), y(), 9, EntryTypes::Tool(tool(c(), g()))),
        invalid(Reason::UpdateOfNonEntry)
    );
    assert_eq!(
        stored_update(&store, rid(80), z(), 9, EntryTypes::Curator(curator())),
        invalid(Reason::UpdateOfNonEntry)
    );
}

#[test]
fn record_of_an_update_of_an_entry_of_another_kind() {
    let store = world();
    assert_eq!(
        stored_update(&store, rid(60), z(), 9, EntryTypes::Curator(curator())),
        invalid(Reason::UpdatedKindDiffers)
    );
    assert_eq!(
        stored_update(&store, c(), z(), 9, EntryTypes::Curator(curator())),
        invalid(Reason::EntryKindChanged)
    );
}

#[test]
fn record_of_an_update_waits_for_what_it_updates() {
    let store = world();
    assert_eq!(
        stored_update(&store, rid(90), z(), 9, EntryTypes::Curator(curator())),
        missing(rid(90))
    );
}

fn stored_delete(
    store: &ContentStore,
    original: RevisionId,
    author: Principal,
) -> Result<ValidateCallbackResult, ValidationError> {
    validate(
        store,
        &FlatOp::StoreRecord(OpRecord::DeleteEntry {
            original_action_hash: original,
            action: delete(author, original),
        }),
    )
}

#[test]
fn record_of_a_delete_of_each_kind() {
    let store = world();
    assert_eq!(stored_delete(&store, k(), z()), valid());
    assert_eq!(stored_delete(&store, k(), x()), invalid(Reason::CuratorDeleteByOther));
    assert_eq!(stored_delete(&store, c(), x()), valid());
    assert_eq!(stored_delete(&store, c(), y()), invalid(Reason::CollectiveDeleteByOther));
    assert_eq!(stored_delete(&store, g(), x()), invalid(Reason::PermissionDeleted));
    assert_eq!(stored_delete(&store, rid(40), y()), invalid(Reason::ClaimDeleted));
    assert_eq!(stored_delete(&store, t(), y()), valid());
    assert_eq!(stored_delete(&store, t(), x()), valid());
    assert_eq!(stored_delete(&store, t(), z()), invalid(Reason::NotCollectiveCreatorNorAuthor));
}

#[test]
fn record_of_a_delete_of_something_that_carries_no_entry() {
    let store = world();
    assert_eq!(stored_delete(&store, rid(70), y()), invalid(Reason::DeleteOfNonEntry));
    assert_eq!(stored_delete(&store, rid(81), z()), invalid(Reason::DeleteOfNonEntry));
    assert_eq!(stored_delete(&store, rid(91), z()), missing(rid(91)));
}

#[test]
fn record_of_a_delete_of_a_public_entry_that_is_not_there() {
    let store = world();
    assert_eq!(stored_delete(&store, rid(60), x()), invalid(Reason::DeletedPublicEntryMissing));
}

#[test]
fn record_of_a_delete_of_a_private_entry_that_is_not_there() {
    let store = store_of(vec![Record {
        action_address: rid(61),
        action: Action::Create(Create {
            author: x(),
            timestamp: Timestamp(1),
            prev_action: rid(0),
            entry_type: EntryType::App { visibility: EntryVisibility::Private },
        }),
        entry: RecordEntry::Hidden,
    }]);
    assert_eq!(stored_delete(&store, rid(61), x()), valid());
    assert_eq!(stored_delete(&store, rid(61), z()), valid());
}

#[test]
fn record_of_a_delete_of_what_no_application_defines() {
    let system = |id: RevisionId, entry_type: EntryType, entry: Entry| Record {
        action_address: id,
        action: Action::Create(Create {
            author: x(),
            timestamp: Timestamp(1),
            prev_action: rid(0),
            entry_type,
        }),
        entry: RecordEntry::Present(entry),
    };
    let store = store_of(vec![
        system(rid(62), EntryType::AgentPubKey, Entry::Agent),
        system(rid(63), EntryType::CapClaim, Entry::CapClaim),
        system(rid(64), EntryType::CapGrant, Entry::CapGrant),
        system(rid(65), public(), Entry::Foreign),
        system(rid(66), public(), Entry::Agent),
    ]);
    assert_eq!(stored_delete(&store, rid(62), z()), valid());
    assert_eq!(stored_delete(&store, rid(63), z()), valid());
    assert_eq!(stored_delete(&store, rid(64), z()), valid());
    assert_eq!(stored_delete(&store, rid(65), z()), invalid(Reason::DeletedEntryUndefined));
    assert_eq!(stored_delete(&store, rid(66), z()), Err(ValidationError::Deserialize));
}

fn stored_removal(
    store: &ContentStore,
    original: RevisionId,
    author: Principal,
) -> Result<ValidateCallbackResult, ValidationError> {
    validate(
        store,
        &FlatOp::StoreRecord(OpRecord::DeleteLink {
            original_action_hash: original,
            base_address: action_of(c()),
            action: removal(author, 9, rid(0)),
        }),
    )
}

#[test]
fn record_of_the_removal_of_an_edge() {
    let store = world();
    assert_eq!(stored_removal(&store, rid(70), y()), valid());
    assert_eq!(stored_removal(&store, rid(70), x()), valid());
    assert_eq!(
        stored_removal(&store, rid(70), z()),
        invalid(Reason::NotCollectiveCreatorNorAuthor)
    );
    assert_eq!(
        stored_removal(&store, rid(71), x()),
        invalid(Reason::CollectiveUpdatesLinkDeleted)
    );
}

#[test]
fn record_of_the_removal_of_an_edge_of_an_unknown_kind() {
    let store = world();
    assert_eq!(stored_removal(&store, rid(72), x()), valid());
}

#[test]
fn record_of_the_removal_of_something_that_is_no_edge() {
    let store = world();
    assert_eq!(stored_removal(&store, c(), x()), invalid(Reason::DeleteLinkOfNonLink));
    assert_eq!(stored_removal(&store, rid(92), x()), missing(rid(92)));
}

fn introduced(
    store: &ContentStore,
    prev_action: RevisionId,
) -> Result<ValidateCallbackResult, ValidationError> {
    validate(
        store,
        &FlatOp::RegisterAgentActivity(OpActivity::CreateAgent {
            agent: z(),
            action: Create {
                author: z(),
                timestamp: Timestamp(1),
                prev_action,
                entry_type: EntryType::AgentPubKey,
            },
        }),
    )
}

#[test]
fn agent_is_introduced_after_its_validation_package() {
    let store = world();
    assert_eq!(introduced(&store, rid(80)), valid());
    assert_eq!(introduced(&store, rid(81)), invalid(Reason::AgentWithoutValidationPkg));
    assert_eq!(introduced(&store, c()), invalid(Reason::AgentWithoutValidationPkg));
    assert_eq!(introduced(&store, rid(93)), missing(rid(93)));
}

#[test]
fn dispatchers_of_entries() {
    let store = world();
    let action = EntryCreationAction::Create(create(y(), 5));
    assert_eq!(
        validate_create_entry(&store, &action, &EntryTypes::Tool(tool(c(), g()))),
        valid()
    );
    assert_eq!(
        validate_update_entry(
            &store,
            &update(y(), 5, t()),
            &EntryTypes::Tool(tool(c(), g())),
            &action,
            &EntryTypes::Curator(curator())
        ),
        invalid(Reason::EntryKindChanged)
    );
    assert_eq!(
        validate_delete_entry(
            &store,
            &delete(z(), t()),
            &action,
            &EntryTypes::Tool(tool(c(), g()))
        ),
        invalid(Reason::NotCollectiveCreatorNorAuthor)
    );
}

#[test]
fn missing_record_is_asked_for_and_the_answer_changes_once_it_is_there() {
    let mut store = store_of(vec![]);
    let op = FlatOp::StoreEntry(OpEntry::CreateEntry {
        app_entry: EntryTypes::Tool(tool(c(), g())),
        action: create(y(), 5),
    });
    assert_eq!(validate(&store, &op), missing(c()));
    assert!(store.insert(created(c(), x(), 0, EntryTypes::DeveloperCollective(collective()))));
    assert_eq!(validate(&store, &op), missing(g()));
    assert!(store.insert(created(g(), x(), 1, EntryTypes::ContributorPermission(permission()))));
    assert_eq!(validate(&store, &op), valid());
    assert!(store.insert(created(t(), y(), 5, EntryTypes::Tool(tool(c(), g())))));
    assert_eq!(validate(&store, &op), valid());
}

#[test]
fn verdict_stays_when_the_store_grows() {
    let mut store = world();
    let refused = FlatOp::StoreEntry(OpEntry::CreateEntry {
        app_entry: EntryTypes::Tool(tool(c(), g())),
        action: create(z(), 5),
    });
    assert_eq!(validate(&store, &refused), invalid(Reason::WrongAgent));
    assert!(store.insert(created(
        rid(21),
        x(),
        6,
        EntryTypes::ContributorPermission(ContributorPermission {
            for_collective: c(),
            for_agent: z(),
            expiry: None,
        })
    )));
    assert_eq!(validate(&store, &refused), invalid(Reason::WrongAgent));
}

#[test]
fn same_mutation_same_store_same_answer() {
    let first = world();
    let second = world();
    let op = FlatOp::StoreEntry(OpEntry::CreateEntry {
        app_entry: EntryTypes::Tool(tool(c(), g())),
        action: create(y(), HOUR + 1),
    });
    assert_eq!(validate(&first, &op), validate(&second, &op));
    assert_eq!(validate(&first, &op), validate(&first, &op));
    assert_eq!(validate(&first, &op), invalid(Reason::Expired));
}

#[test]
fn what_the_tag_of_each_kind_of_edge_names() {
    assert_eq!(
        LinkTypes::DeveloperCollectiveToContributorPermissions.tag_kind(),
        Some(TagKind::Principal)
    );
    for link_type in [
        LinkTypes::ContributorToContributorPermissions,
        LinkTypes::DeveloperCollectiveToTools,
        LinkTypes::ToolUpdates,
        LinkTypes::ToolToTag,
    ] {
        assert_eq!(link_type.tag_kind(), Some(TagKind::Revision));
    }
    for link_type in [
        LinkTypes::CuratorUpdates,
        LinkTypes::DeveloperCollectiveUpdates,
        LinkTypes::AllAgents,
        LinkTypes::AllCurators,
        LinkTypes::AllDeveloperCollectives,
        LinkTypes::DeveloperCollectiveToOwner,
        LinkTypes::CuratorToDeveloperCollectives,
        LinkTypes::DeveloperCollectiveToCurators,
        LinkTypes::CuratorToTools,
        LinkTypes::ToolToCurators,
    ] {
        assert_eq!(link_type.tag_kind(), None);
    }
}

#[test]
fn moved_tool_is_refused_as_such_whatever_step_holds_the_tool() {
    let store = store_of(vec![Record {
        action_address: t(),
        action: Action::Delete(delete(y(), rid(31))),
        entry: RecordEntry::Present(Entry::App(EntryTypes::Tool(tool(c(), g())))),
    }]);
    assert_eq!(
        stored_update(&store, t(), z(), 9, EntryTypes::Tool(tool(rid(11), rid(11)))),
        invalid(Reason::CollectiveChanged)
    );
    assert_eq!(
        stored_update(&store, t(), z(), 9, EntryTypes::Curator(curator())),
        invalid(Reason::EntryKindChanged)
    );
    assert_eq!(
        stored_update(&store, t(), y(), 9, EntryTypes::Tool(tool(c(), g()))),
        invalid(Reason::UpdateOfNonEntry)
    );
}

#[test]
fn removal_of_a_permission_is_refused_whatever_step_holds_it() {
    let held = |action: Action| {
        store_of(vec![Record {
            action_address: g(),
            action,
            entry: RecordEntry::Present(Entry::App(EntryTypes::ContributorPermission(
                permission(),
            ))),
        }])
    };
    let stores = [
        held(Action::Create(create(x(), 1))),
        held(Action::Create(Create {
            author: x(),
            timestamp: Timestamp(1),
            prev_action: rid(0),
            entry_type: EntryType::CapGrant,
        })),
        held(Action::Delete(delete(x(), rid(31)))),
        held(Action::Other(OtherAction { author: x(), timestamp: Timestamp(1) })),
    ];
    for store in &stores {
        for author in [x(), y(), z()] {
            assert_eq!(stored_delete(store, g(), author), invalid(Reason::PermissionDeleted));
            assert_eq!(
                validate_register_delete(store, &g(), &delete(author, g())),
                invalid(Reason::PermissionDeleted)
            );
        }
    }
}
