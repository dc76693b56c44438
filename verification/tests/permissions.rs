use tool_library::coordinator::contributor_permission::{
    create_contributor_permission, get_agent_permission, get_contributor_permission,
    get_contributor_permissions_for_contributor,
    get_contributor_permissions_for_developer_collective, get_my_permission,
    GetAgentPermissionInput,
};
use tool_library::hash::{EntryId, ExternalId, LinkableHash, Principal, RevisionId};
use tool_library::integrity::contributor_permission::ContributorPermission;
use tool_library::integrity::curator::Curator;
use tool_library::integrity::developer_collective::DeveloperCollective;
use tool_library::integrity::tool::Tool;
use tool_library::integrity::{validate_create_link, EntryTypes, LinkTypes};
use tool_library::outcome::{GuestError, Reason, ValidateCallbackResult, ValidationError};
use tool_library::record::{
    Action, Create, CreateLink, Delete, DeleteLink, Entry, EntryType, EntryVisibility, Record,
    RecordEntry, Timestamp,
};
use tool_library::store::{Anchors, ContentStore};

fn agent(n: u8) -> Principal {
    Principal { bytes: [n; 36] }
}

fn rid(n: u8) -> RevisionId {
    RevisionId { bytes: [n; 36] }
}

fn x() -> Principal {
    agent(1)
}

fn y() -> Principal {
    agent(2)
}

fn z() -> Principal {
    agent(3)
}

fn valid() -> Result<ValidateCallbackResult, ValidationError> {
    Ok(ValidateCallbackResult::Valid)
}

fn invalid(reason: Reason) -> Result<ValidateCallbackResult, ValidationError> {
    Ok(ValidateCallbackResult::Invalid(reason))
}

fn guest(error: GuestError) -> Result<ValidateCallbackResult, ValidationError> {
    Err(ValidationError::Guest(error))
}

fn missing(id: RevisionId) -> Result<ValidateCallbackResult, ValidationError> {
    Err(ValidationError::DependencyMissing(id))
}

fn public() -> EntryType {
    EntryType::App { visibility: EntryVisibility::Public }
}

fn create(author: Principal, time: i64) -> Create {
    Create { author, timestamp: Timestamp(time), prev_action: rid(0), entry_type: public() }
}

fn created(id: RevisionId, author: Principal, time: i64, entry: EntryTypes) -> Record {
    Record {
        action_address: id,
        action: Action::Create(create(author, time)),
        entry: RecordEntry::Present(Entry::App(entry)),
    }
}

fn bare(id: RevisionId, author: Principal, time: i64) -> Record {
    Record {
        action_address: id,
        action: Action::Create(create(author, time)),
        entry: RecordEntry::NA,
    }
}

fn collective() -> DeveloperCollective {
    DeveloperCollective {
        name: "Lightningrod Labs".to_string(),
        description: None,
        website: None,
        contact: None,
        icon: "icon".to_string(),
        meta_data: None,
    }
}

fn curator() -> Curator {
    Curator {
        name: "A curator".to_string(),
        description: "Curates".to_string(),
        icon: "icon".to_string(),
        website: None,
        email: None,
        meta_data: None,
    }
}

fn tool(developer_collective: RevisionId, permission_hash: RevisionId) -> Tool {
    Tool {
        developer_collective,
        permission_hash,
        title: "A tool".to_string(),
        subtitle: "that helps".to_string(),
        description: "It helps.".to_string(),
        icon: "icon".to_string(),
        version: "0.1.0".to_string(),
        source: "{}".to_string(),
        hashes: "{}".to_string(),
        changelog: None,
        meta_data: None,
        deprecation: None,
    }
}

fn anchors() -> Anchors {
    Anchors {
        all_agents: EntryId { bytes: [201; 36] },
        all_curators: EntryId { bytes: [202; 36] },
        all_developer_collectives: EntryId { bytes: [203; 36] },
    }
}

fn store_of(records: Vec<Record>) -> ContentStore {
    let mut store = ContentStore::new(anchors());
    for record in records {
        assert!(store.insert(record));
    }
    store
}

fn link(author: Principal, time: i64) -> CreateLink {
    CreateLink {
        author,
        timestamp: Timestamp(time),
        base_address: LinkableHash::Action(rid(0)),
        target_address: LinkableHash::Action(rid(0)),
        link_type: None,
        tag: vec![],
    }
}

fn unlink(author: Principal, time: i64) -> DeleteLink {
    DeleteLink {
        author,
        timestamp: Timestamp(time),
        prev_action: rid(0),
        base_address: LinkableHash::Action(rid(0)),
        link_add_address: rid(99),
    }
}

fn action_of(id: RevisionId) -> LinkableHash {
    LinkableHash::Action(id)
}

fn entry_hash() -> LinkableHash {
    LinkableHash::Entry(EntryId { bytes: [77; 36] })
}

fn external() -> LinkableHash {
    LinkableHash::External(ExternalId { bytes: [78; 36] })
}

const NOW: i64 = 1_000_000;

fn c() -> RevisionId {
    rid(10)
}

fn granted(id: u8, to: Principal, expiry: Option<i64>) -> Record {
    created(
        rid(id),
        x(),
        1,
        EntryTypes::ContributorPermission(ContributorPermission {
            for_collective: c(),
            for_agent: to,
            expiry: expiry.map(Timestamp),
        }),
    )
}

fn indexed(id: u8, permission: u8, tagged: Principal) -> Record {
    Record {
        action_address: rid(id),
        action: Action::CreateLink(CreateLink {
            author: x(),
            timestamp: Timestamp(2),
            base_address: action_of(c()),
            target_address: action_of(rid(permission)),
            link_type: Some(LinkTypes::DeveloperCollectiveToContributorPermissions),
            tag: tagged.get_raw_39(),
        }),
        entry: RecordEntry::NA,
    }
}

fn owned() -> Record {
    created(c(), x(), 0, EntryTypes::DeveloperCollective(collective()))
}

/// The collective `c` of `x` with permissions for `y`: each is given by the
/// number of its record and its end, and indexed in the order given.
fn with_grants(grants: Vec<(u8, Option<i64>)>) -> ContentStore {
    let mut records = vec![owned()];
    for (id, expiry) in &grants {
        records.push(granted(*id, y(), *expiry));
    }
    for (id, _) in &grants {
        records.push(indexed(100 + *id, *id, y()));
    }
    store_of(records)
}

fn held(store: &ContentStore, agent: Principal, now: i64) -> Option<RevisionId> {
    get_agent_permission(
        store,
        GetAgentPermissionInput { developer_collective_hash: c(), agent },
        Timestamp(now),
    )
}

#[test]
fn owner_holds_the_collective_without_any_permission() {
    let store = store_of(vec![owned()]);
    assert_eq!(held(&store, x(), NOW), Some(c()));
}

#[test]
fn owner_holds_the_collective_whatever_permissions_there_are() {
    let mut store = with_grants(vec![(20, None), (21, Some(5))]);
    assert!(store.insert(granted(22, x(), None)));
    assert!(store.insert(indexed(122, 22, x())));
    assert!(store.insert(granted(23, x(), Some(1))));
    assert!(store.insert(indexed(123, 23, x())));
    assert_eq!(held(&store, x(), NOW), Some(c()));
    assert_eq!(held(&store, x(), i64::MAX), Some(c()));
    assert_eq!(held(&store, x(), i64::MIN), Some(c()));
}

#[test]
fn nothing_is_held_for_an_unknown_collective() {
    let store = store_of(vec![granted(20, y(), None), indexed(120, 20, y())]);
    assert_eq!(held(&store, x(), NOW), None);
    assert_eq!(held(&store, y(), NOW), None);
}

#[test]
fn nothing_is_held_for_a_removed_collective() {
    let mut store = with_grants(vec![(20, None)]);
    assert_eq!(held(&store, y(), NOW), Some(rid(20)));
    assert!(store.insert(Record {
        action_address: rid(90),
        action: Action::Delete(Delete {
            author: x(),
            timestamp: Timestamp(5),
            deletes_address: c(),
        }),
        entry: RecordEntry::NA,
    }));
    assert_eq!(held(&store, x(), NOW), None);
    assert_eq!(held(&store, y(), NOW), None);
}

#[test]
fn nothing_is_held_without_a_permission() {
    let store = store_of(vec![owned()]);
    assert_eq!(held(&store, y(), NOW), None);
    let store = with_grants(vec![(20, None)]);
    assert_eq!(held(&store, z(), NOW), None);
}

#[test]
fn permission_without_end_is_held_at_any_time() {
    let store = with_grants(vec![(20, None)]);
    assert_eq!(held(&store, y(), NOW), Some(rid(20)));
    assert_eq!(held(&store, y(), i64::MAX), Some(rid(20)));
    assert_eq!(held(&store, y(), i64::MIN), Some(rid(20)));
}

#[test]
fn permission_without_end_wins_over_any_with_an_end() {
    let store = with_grants(vec![(20, Some(i64::MAX)), (21, None), (22, Some(NOW + 5))]);
    assert_eq!(held(&store, y(), NOW), Some(rid(21)));
    let store = with_grants(vec![(21, None), (20, Some(i64::MAX))]);
    assert_eq!(held(&store, y(), NOW), Some(rid(21)));
    let store = with_grants(vec![(20, Some(i64::MAX)), (21, None)]);
    assert_eq!(held(&store, y(), NOW), Some(rid(21)));
}

#[test]
fn permission_without_end_wins_when_all_others_have_ended() {
    let store = with_grants(vec![(20, Some(1)), (22, Some(2)), (21, None)]);
    assert_eq!(held(&store, y(), NOW), Some(rid(21)));
}

#[test]
fn first_permission_without_end_is_held() {
    let store = with_grants(vec![(23, Some(7)), (21, None), (20, None), (22, None)]);
    assert_eq!(held(&store, y(), NOW), Some(rid(21)));
}

#[test]
fn permission_that_ends_last_is_held() {
    let store = with_grants(vec![(20, Some(NOW + 1)), (21, Some(NOW + 3)), (22, Some(NOW + 2))]);
    assert_eq!(held(&store, y(), NOW), Some(rid(21)));
    let store = with_grants(vec![(21, Some(NOW + 3)), (20, Some(NOW + 1)), (22, Some(NOW + 2))]);
    assert_eq!(held(&store, y(), NOW), Some(rid(21)));
    let store = with_grants(vec![(20, Some(NOW + 1)), (22, Some(NOW + 2)), (21, Some(NOW + 3))]);
    assert_eq!(held(&store, y(), NOW), Some(rid(21)));
}

#[test]
fn permission_that_ends_last_is_held_until_its_end() {
    let store = with_grants(vec![(20, Some(NOW - 10)), (21, Some(NOW))]);
    assert_eq!(held(&store, y(), NOW - 11), Some(rid(21)));
    assert_eq!(held(&store, y(), NOW - 1), Some(rid(21)));
    assert_eq!(held(&store, y(), NOW), Some(rid(21)));
    assert_eq!(held(&store, y(), NOW + 1), None);
    assert_eq!(held(&store, y(), i64::MAX), None);
}

#[test]
fn nothing_is_held_once_the_last_permission_has_ended() {
    let store = with_grants(vec![(20, Some(1)), (21, Some(3)), (22, Some(2))]);
    assert_eq!(held(&store, y(), 4), None);
    assert_eq!(held(&store, y(), 3), Some(rid(21)));
}

#[test]
fn single_permission_with_an_end() {
    let store = with_grants(vec![(20, Some(NOW))]);
    assert_eq!(held(&store, y(), NOW), Some(rid(20)));
    assert_eq!(held(&store, y(), NOW + 1), None);
}

#[test]
fn of_permissions_that_end_together_the_last_found_is_held() {
    let store = with_grants(vec![(20, Some(NOW)), (21, Some(NOW)), (22, Some(NOW - 1))]);
    assert_eq!(held(&store, y(), NOW), Some(rid(21)));
}

#[test]
fn ends_far_in_the_past_and_in_the_future() {
    let store = with_grants(vec![(20, Some(i64::MIN)), (21, Some(i64::MAX))]);
    assert_eq!(held(&store, y(), i64::MAX), Some(rid(21)));
    let store = with_grants(vec![(20, Some(i64::MIN))]);
    assert_eq!(held(&store, y(), i64::MIN), Some(rid(20)));
    assert_eq!(held(&store, y(), i64::MIN + 1), None);
}

#[test]
fn tag_tells_the_edges_of_one_principal_from_the_others() {
    let store = store_of(vec![
        owned(),
        granted(20, y(), None),
        granted(21, z(), Some(NOW)),
        indexed(120, 20, y()),
        indexed(121, 21, z()),
    ]);
    assert_eq!(held(&store, y(), NOW), Some(rid(20)));
    assert_eq!(held(&store, z(), NOW), Some(rid(21)));
    assert_eq!(held(&store, z(), NOW + 1), None);
}

#[test]
fn tag_alone_proves_nothing() {
    let store = store_of(vec![owned(), granted(20, y(), None), indexed(120, 20, z())]);
    assert_eq!(held(&store, z(), NOW), None);
    assert_eq!(held(&store, y(), NOW), None);
}

#[test]
fn permission_for_another_collective_does_not_count() {
    let store = store_of(vec![
        owned(),
        created(
            rid(20),
            x(),
            1,
            EntryTypes::ContributorPermission(ContributorPermission {
                for_collective: rid(11),
                for_agent: y(),
                expiry: None,
            }),
        ),
        indexed(120, 20, y()),
    ]);
    assert_eq!(held(&store, y(), NOW), None);
}

#[test]
fn edge_with_a_tag_that_names_no_principal_does_not_count() {
    let mut broken = indexed(120, 20, y());
    if let Action::CreateLink(link) = &mut broken.action {
        link.tag = vec![1, 2, 3];
    }
    let mut wrong_kind = indexed(121, 20, y());
    if let Action::CreateLink(link) = &mut wrong_kind.action {
        link.tag = c().get_raw_39();
    }
    let store = store_of(vec![owned(), granted(20, y(), None), broken, wrong_kind]);
    assert_eq!(held(&store, y(), NOW), None);
}

#[test]
fn edge_to_what_is_not_there_does_not_count() {
    let store = store_of(vec![owned(), indexed(120, 20, y())]);
    assert_eq!(held(&store, y(), NOW), None);
    let store = store_of(vec![
        owned(),
        indexed(120, 20, y()),
        granted(21, y(), Some(NOW)),
        indexed(121, 21, y()),
    ]);
    assert_eq!(held(&store, y(), NOW), Some(rid(21)));
}

#[test]
fn edge_to_something_that_is_no_permission_does_not_count() {
    let mut to_content = indexed(121, 20, y());
    if let Action::CreateLink(link) = &mut to_content.action {
        link.target_address = entry_hash();
    }
    let store = store_of(vec![
        owned(),
        created(rid(20), x(), 1, EntryTypes::Tool(tool(c(), c()))),
        indexed(120, 20, y()),
        to_content,
        bare(rid(22), x(), 1),
        indexed(122, 22, y()),
        indexed(123, 10, y()),
    ]);
    assert_eq!(held(&store, y(), NOW), None);
}

#[test]
fn removed_permission_does_not_count() {
    let mut store = with_grants(vec![(20, None), (21, Some(NOW))]);
    assert!(store.insert(Record {
        action_address: rid(90),
        action: Action::Delete(Delete {
            author: x(),
            timestamp: Timestamp(5),
            deletes_address: rid(20),
        }),
        entry: RecordEntry::NA,
    }));
    assert_eq!(held(&store, y(), NOW), Some(rid(21)));
}

#[test]
fn removed_edge_does_not_count() {
    let mut store = with_grants(vec![(20, None), (21, Some(NOW))]);
    assert!(store.insert(Record {
        action_address: rid(91),
        action: Action::DeleteLink(DeleteLink {
            author: x(),
            timestamp: Timestamp(5),
            prev_action: rid(0),
            base_address: action_of(c()),
            link_add_address: rid(120),
        }),
        entry: RecordEntry::NA,
    }));
    assert_eq!(held(&store, y(), NOW), Some(rid(21)));
}

#[test]
fn edge_of_another_kind_does_not_count() {
    let mut other = indexed(120, 20, y());
    if let Action::CreateLink(link) = &mut other.action {
        link.link_type = Some(LinkTypes::DeveloperCollectiveToTools);
    }
    let mut elsewhere = indexed(121, 20, y());
    if let Action::CreateLink(link) = &mut elsewhere.action {
        link.base_address = action_of(rid(11));
    }
    let store = store_of(vec![owned(), granted(20, y(), None), other, elsewhere]);
    assert_eq!(held(&store, y(), NOW), None);
}

#[test]
fn acting_principal_holds_what_it_would_hold_as_anyone() {
    let store = with_grants(vec![(20, Some(NOW)), (21, Some(NOW + 1))]);
    assert_eq!(get_my_permission(&store, y(), c(), Timestamp(NOW)), Some(rid(21)));
    assert_eq!(get_my_permission(&store, y(), c(), Timestamp(NOW + 2)), None);
    assert_eq!(get_my_permission(&store, x(), c(), Timestamp(NOW + 2)), Some(c()));
    assert_eq!(get_my_permission(&store, z(), c(), Timestamp(NOW)), None);
}

#[test]
fn edges_that_go_with_a_new_permission() {
    let permission =
        ContributorPermission { for_collective: c(), for_agent: y(), expiry: Some(Timestamp(5)) };
    let plan = create_contributor_permission(&permission, rid(20));
    assert_eq!(plan.len(), 2);
    assert_eq!(plan[0].base_address, action_of(c()));
    assert_eq!(plan[0].target_address, action_of(rid(20)));
    assert_eq!(plan[0].link_type, LinkTypes::DeveloperCollectiveToContributorPermissions);
    assert_eq!(plan[0].tag, y().get_raw_39());
    assert_eq!(plan[1].base_address, LinkableHash::Entry(EntryId { bytes: y().bytes }));
    assert_eq!(plan[1].target_address, action_of(rid(20)));
    assert_eq!(plan[1].link_type, LinkTypes::ContributorToContributorPermissions);
    assert_eq!(plan[1].tag, c().get_raw_39());
}

#[test]
fn edges_that_go_with_a_new_permission_are_admitted() {
    let permission = ContributorPermission { for_collective: c(), for_agent: y(), expiry: None };
    let store = store_of(vec![owned(), granted(20, y(), None)]);
    for planned in create_contributor_permission(&permission, rid(20)) {
        let mut action = link(x(), 3);
        action.base_address = planned.base_address;
        action.target_address = planned.target_address;
        action.link_type = Some(planned.link_type);
        action.tag = planned.tag.clone();
        assert_eq!(
            validate_create_link(
                &store,
                planned.link_type,
                &action,
                planned.base_address,
                planned.target_address,
                &planned.tag
            ),
            valid()
        );
        let mut forged = link(y(), 3);
        forged.tag = planned.tag.clone();
        assert!(matches!(
            validate_create_link(
                &store,
                planned.link_type,
                &forged,
                planned.base_address,
                planned.target_address,
                &planned.tag
            ),
            Ok(ValidateCallbackResult::Invalid(_))
        ));
    }
}

#[test]
fn planned_permission_is_found_once_it_is_written() {
    let permission =
        ContributorPermission { for_collective: c(), for_agent: y(), expiry: Some(Timestamp(NOW)) };
    let mut store = store_of(vec![owned(), granted(20, y(), Some(NOW))]);
    assert_eq!(held(&store, y(), NOW), None);
    let plan = create_contributor_permission(&permission, rid(20));
    for (n, planned) in plan.into_iter().enumerate() {
        assert!(store.insert(Record {
            action_address: rid(120 + n as u8),
            action: Action::CreateLink(CreateLink {
                author: x(),
                timestamp: Timestamp(3),
                base_address: planned.base_address,
                target_address: planned.target_address,
                link_type: Some(planned.link_type),
                tag: planned.tag,
            }),
            entry: RecordEntry::NA,
        }));
    }
    assert_eq!(held(&store, y(), NOW), Some(rid(20)));
    assert_eq!(get_contributor_permissions_for_developer_collective(&store, &c()).len(), 1);
    assert_eq!(get_contributor_permissions_for_contributor(&store, y()).len(), 1);
    assert_eq!(get_contributor_permissions_for_contributor(&store, x()).len(), 0);
    assert_eq!(
        get_contributor_permissions_for_contributor(&store, y())[0].action_address,
        rid(121)
    );
}

#[test]
fn record_of_a_permission() {
    let store = with_grants(vec![(20, None)]);
    assert_eq!(get_contributor_permission(&store, &rid(20)), Some(&granted(20, y(), None)));
    assert_eq!(get_contributor_permission(&store, &rid(21)), None);
}

#[test]
fn edges_from_a_collective_to_its_permissions() {
    let store = with_grants(vec![(20, None), (21, Some(5))]);
    let found = get_contributor_permissions_for_developer_collective(&store, &c());
    assert_eq!(found.len(), 2);
    assert_eq!(found[0].action_address, rid(120));
    assert_eq!(found[1].action_address, rid(121));
    assert_eq!(get_contributor_permissions_for_developer_collective(&store, &rid(11)).len(), 0);
}
