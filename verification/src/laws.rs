//! What holds of the library as a whole.
//!
//! Each statement here relates several functions, or holds of every store.
//! What holds of one function alone is stated with that function.

use crate::coordinator::contributor_permission::{
    first_indefinite, grant_of_link, grants, lemma_first_indefinite, lemma_longest, longest,
    spec_agent_permission,
};
use crate::coordinator::revisions::{
    latest_link, lemma_latest_link_is_latest, linked_records, spec_all_revisions,
    spec_latest_action_hash,
};
use crate::coordinator::CreateLinkInput;
use crate::hash::{
    lemma_principal_round_trip, lemma_revision_id_round_trip, HashError, LinkableHash, Principal,
    RevisionId,
};
use crate::integrity::contributor_permission::{fetch_linked_permission, ContributorPermission};
use crate::integrity::op::{FlatOp, OpDelete, OpEntry, OpRecord, OpUpdate};
use crate::integrity::tool::{
    authorizes, contributor_permission_answer, create_tool_answer, fetch_tool, permits,
    tool_permission_answer, Tool,
};
use crate::integrity::{
    create_entry_answer, create_link_answer, delete_entry_answer, delete_link_answer,
    register_delete_answer, register_update_answer, spec_deserialize, store_update_answer,
    tag_names, update_entry_answer, validate_answer,
    EntryTypes, LinkTypes,
};
use crate::outcome::{
    invalid, missing, spec_classify, valid, ErrorClass, Reason, ValidateCallbackResult,
    ValidationError, ValidationResult,
};
use crate::record::{
    Action, Create, CreateLink, Delete, DeleteLink, Entry, EntryCreationAction, Record,
    RecordEntry, Timestamp, Update,
};
use crate::store::{distinct_addresses, fetch, holds, link_deletes_of, links, live, lookup, Anchors};
use vstd::prelude::*;

verus! {

/// What is looked up under an identity carries that identity.
pub proof fn lemma_lookup_finds_the_identity(records: Seq<Record>, id: RevisionId)
    ensures
        lookup(records, id) matches Some(record) ==> record.action_address == id
            && records.contains(record),
        lookup(records, id) is Some <==> holds(records, id),
{
}

/// Two filters that agree on every element of a sequence keep the same
/// elements of it.
pub proof fn lemma_filter_agrees<A>(s: Seq<A>, p: spec_fn(A) -> bool, q: spec_fn(A) -> bool)
    requires
        forall|i: int| 0 <= i < s.len() ==> p(s[i]) == q(s[i]),
    ensures
        s.filter(p) == s.filter(q),
    decreases s.len(),
{
    reveal(Seq::filter);
    if s.len() > 0 {
        let rest = s.drop_last();
        assert forall|i: int| 0 <= i < rest.len() implies p(rest[i]) == q(rest[i]) by {
            assert(rest[i] == s[i]);
        }
        lemma_filter_agrees(rest, p, q);
        assert(s.last() == s[s.len() - 1]);
    }
}

/// A filter does not see a new element that it does not keep.
pub proof fn lemma_filter_skips<A>(s: Seq<A>, p: spec_fn(A) -> bool, x: A)
    requires
        !p(x),
    ensures
        s.push(x).filter(p) == s.filter(p),
{
    reveal(Seq::filter);
    assert(s.push(x).drop_last() =~= s);
    assert(s.push(x).last() == x);
}

/// The edges of a kind that start somewhere stay what they are when the
/// store takes a record that is no such edge and removes no such edge.
pub proof fn lemma_links_unchanged(
    records: Seq<Record>,
    record: Record,
    base: LinkableHash,
    link_type: LinkTypes,
)
    requires
        !record.spec_is_link(base, link_type),
        forall|i: int|
            0 <= i < records.len() && (#[trigger] records[i]).spec_is_link(base, link_type)
                ==> !record.spec_deletes_link(records[i].action_address),
    ensures
        links(records.push(record), base, link_type) == links(records, base, link_type),
{
    let grown = records.push(record);
    let p = |r: Record|
        r.spec_is_link(base, link_type) && link_deletes_of(records, r.action_address).len() == 0;
    let q = |r: Record|
        r.spec_is_link(base, link_type) && link_deletes_of(grown, r.action_address).len() == 0;
    assert forall|i: int| 0 <= i < records.len() implies p(records[i]) == q(records[i]) by {
        if records[i].spec_is_link(base, link_type) {
            let id = records[i].action_address;
            lemma_filter_skips(records, |r: Record| r.spec_deletes_link(id), record);
        }
    }
    lemma_filter_agrees(records, p, q);
    lemma_filter_skips(records, q, record);
}

/// Asking twice for the latest revision of an entry gives the same
/// identity, as long as the store took no update edge of the entry in between
/// and nothing that removes one: whatever else it took in does not count.
pub proof fn lemma_latest_is_stable(
    records: Seq<Record>,
    record: Record,
    original: RevisionId,
    link_type: LinkTypes,
)
    requires
        !record.spec_is_link(LinkableHash::Action(original), link_type),
        forall|i: int|
            0 <= i < records.len() && (#[trigger] records[i]).spec_is_link(
                LinkableHash::Action(original),
                link_type,
            ) ==> !record.spec_deletes_link(records[i].action_address),
    ensures
        spec_latest_action_hash(records.push(record), original, link_type)
            == spec_latest_action_hash(records, original, link_type),
{
    lemma_links_unchanged(records, record, LinkableHash::Action(original), link_type);
}

/// The latest revision of an entry without update edges is the entry itself;
/// otherwise it is the end of an update edge of the entry after which no
/// other update edge of the entry was made.
pub proof fn lemma_latest_is_latest(
    records: Seq<Record>,
    original: RevisionId,
    link_type: LinkTypes,
)
    ensures
        links(records, LinkableHash::Action(original), link_type).len() == 0
            ==> spec_latest_action_hash(records, original, link_type) == Ok::<
            RevisionId,
            ValidationError,
        >(original),
        links(records, LinkableHash::Action(original), link_type).len() > 0 ==> exists|i: int|
            0 <= i < links(records, LinkableHash::Action(original), link_type).len() && {
                let edge = #[trigger] links(records, LinkableHash::Action(original), link_type)[i];
                &&& spec_latest_action_hash(records, original, link_type)
                    == edge.spec_link_target_action_hash()
                &&& forall|j: int|
                    0 <= j < links(records, LinkableHash::Action(original), link_type).len()
                        ==> (#[trigger] links(
                        records,
                        LinkableHash::Action(original),
                        link_type,
                    )[j]).action.spec_timestamp().0 <= edge.action.spec_timestamp().0
            },
{
    let edges = links(records, LinkableHash::Action(original), link_type);
    if edges.len() > 0 {
        lemma_latest_link_is_latest(edges);
        let best = latest_link(edges)->Some_0;
        let i = choose|i: int| 0 <= i < edges.len() && edges[i] == best;
        assert(edges[i] == best);
    }
}

/// The revisions of an entry always start with the first record of the
/// entry: where there is a list at all, it is not empty, and its first
/// element is the record with the identity that was asked for.
pub proof fn lemma_all_revisions_start_with_the_original(
    records: Seq<Record>,
    original: RevisionId,
    link_type: LinkTypes,
)
    ensures
        spec_all_revisions(records, original, link_type) matches Ok(list) ==> {
            &&& list.len() >= 1
            &&& lookup(records, original) == Some(list[0])
            &&& list[0].action_address == original
        },
        spec_all_revisions(records, original, link_type) is Ok ==> holds(records, original),
{
    if spec_all_revisions(records, original, link_type) is Ok {
        let first = fetch(records, original)->Ok_0;
        let later = linked_records(
            records,
            links(records, LinkableHash::Action(original), link_type),
        )->Ok_0;
        assert((seq![first] + later)[0] == first);
    }
}

/// Whether the record `id` is in the store and carries `entry`.
pub open spec fn holds_entry(records: Seq<Record>, id: RevisionId, entry: EntryTypes) -> bool {
    fetch(records, id) matches Ok(record) && record.entry == RecordEntry::Present(
        Entry::App(entry),
    )
}

/// A tool never changes its collective: an update that names another
/// collective than the tool it updates is refused for that reason, whoever
/// makes it and whatever permission it names. This holds of an update in each
/// of the forms in which it reaches a peer: where the tool that is updated
/// comes with the update, and where the record under the identity that the
/// update names holds it.
pub proof fn lemma_collective_of_a_tool_is_fixed(
    records: Seq<Record>,
    anchors: Anchors,
    action: Update,
    tool: Tool,
    original_action: EntryCreationAction,
    original_action_hash: RevisionId,
    original_tool: Tool,
)
    requires
        tool.developer_collective != original_tool.developer_collective,
    ensures
        validate_answer(
            records,
            anchors,
            FlatOp::RegisterUpdate(
                OpUpdate::Entry {
                    original_action,
                    original_app_entry: EntryTypes::Tool(original_tool),
                    app_entry: EntryTypes::Tool(tool),
                    action,
                },
            ),
        ) == invalid(Reason::CollectiveChanged),
        holds_entry(records, original_action_hash, EntryTypes::Tool(original_tool))
            ==> validate_answer(
            records,
            anchors,
            FlatOp::StoreRecord(
                OpRecord::UpdateEntry {
                    original_action_hash,
                    app_entry: EntryTypes::Tool(tool),
                    action,
                },
            ),
        ) == invalid(Reason::CollectiveChanged),
        holds_entry(records, action.original_action_address, EntryTypes::Tool(original_tool))
            ==> validate_answer(
            records,
            anchors,
            FlatOp::StoreEntry(OpEntry::UpdateEntry { app_entry: EntryTypes::Tool(tool), action }),
        ) == invalid(Reason::CollectiveChanged),
        holds_entry(records, original_action_hash, EntryTypes::Tool(original_tool))
            ==> register_update_answer(
            records,
            original_action_hash,
            EntryTypes::Tool(tool),
            action,
        ) == invalid(Reason::CollectiveChanged),
        spec_classify(invalid(Reason::CollectiveChanged)) == Some(ErrorClass::StructuralViolation),
{
}

/// An update that moves a tool to another collective is refused as such
/// wherever the record that it names can be read as a tool of another
/// collective, whatever kind of step that record is and whoever makes the
/// update.
pub proof fn lemma_moved_tool_is_refused_as_such(
    records: Seq<Record>,
    anchors: Anchors,
    action: Update,
    tool: Tool,
    original_action_hash: RevisionId,
    original_tool: Tool,
)
    requires
        fetch(records, original_action_hash) matches Ok(record) && record.entry.spec_to_tool()
            == Ok::<Option<Tool>, ValidationError>(Some(original_tool)),
        tool.developer_collective != original_tool.developer_collective,
    ensures
        holds_entry(records, original_action_hash, EntryTypes::Tool(original_tool)),
        register_update_answer(records, original_action_hash, EntryTypes::Tool(tool), action)
            == invalid(Reason::CollectiveChanged),
        validate_answer(
            records,
            anchors,
            FlatOp::StoreRecord(
                OpRecord::UpdateEntry {
                    original_action_hash,
                    app_entry: EntryTypes::Tool(tool),
                    action,
                },
            ),
        ) == invalid(Reason::CollectiveChanged),
        original_action_hash == action.original_action_address ==> validate_answer(
            records,
            anchors,
            FlatOp::StoreEntry(OpEntry::UpdateEntry { app_entry: EntryTypes::Tool(tool), action }),
        ) == invalid(Reason::CollectiveChanged),
{
}

/// A permission is for good. No update of one is ever admitted, in whichever
/// form it reaches a peer, whoever makes it and whatever the store holds. No
/// removal of one is ever admitted: not where the permission comes with the
/// removal, and not where the record that the removal names holds it.
pub proof fn lemma_permissions_are_immutable(
    records: Seq<Record>,
    anchors: Anchors,
    update: Update,
    delete: Delete,
    original_action: EntryCreationAction,
    original_action_hash: RevisionId,
    original_app_entry: EntryTypes,
    permission: ContributorPermission,
    original_permission: ContributorPermission,
)
    ensures
        validate_answer(
            records,
            anchors,
            FlatOp::StoreEntry(
                OpEntry::UpdateEntry {
                    app_entry: EntryTypes::ContributorPermission(permission),
                    action: update,
                },
            ),
        ) == invalid(Reason::PermissionUpdated),
        validate_answer(
            records,
            anchors,
            FlatOp::StoreRecord(
                OpRecord::UpdateEntry {
                    original_action_hash,
                    app_entry: EntryTypes::ContributorPermission(permission),
                    action: update,
                },
            ),
        ) == invalid(Reason::PermissionUpdated),
        validate_answer(
            records,
            anchors,
            FlatOp::RegisterUpdate(
                OpUpdate::Entry {
                    original_action,
                    original_app_entry,
                    app_entry: EntryTypes::ContributorPermission(permission),
                    action: update,
                },
            ),
        ) == invalid(Reason::PermissionUpdated),
        register_update_answer(
            records,
            original_action_hash,
            EntryTypes::ContributorPermission(permission),
            update,
        ) == invalid(Reason::PermissionUpdated),
        validate_answer(
            records,
            anchors,
            FlatOp::RegisterDelete(
                OpDelete::Entry {
                    original_action,
                    original_app_entry: EntryTypes::ContributorPermission(original_permission),
                    action: delete,
                },
            ),
        ) == invalid(Reason::PermissionDeleted),
        holds_entry(
            records,
            original_action_hash,
            EntryTypes::ContributorPermission(original_permission),
        ) ==> validate_answer(
            records,
            anchors,
            FlatOp::StoreRecord(OpRecord::DeleteEntry { original_action_hash, action: delete }),
        ) == invalid(Reason::PermissionDeleted),
        holds_entry(
            records,
            original_action_hash,
            EntryTypes::ContributorPermission(original_permission),
        ) ==> register_delete_answer(records, original_action_hash, delete) == invalid(
            Reason::PermissionDeleted,
        ),
{
}

/// A principal that did not create a collective and for whom the store
/// holds no permission for it cannot publish under it: whatever record of the
/// store its tool names as permission, the tool is refused, and refused for
/// want of authorization.
pub proof fn lemma_without_permission_a_tool_is_refused(
    records: Seq<Record>,
    anchors: Anchors,
    create: Create,
    tool: Tool,
)
    requires
        fetch(records, tool.developer_collective) matches Ok(record)
            && record.entry.spec_to_developer_collective() matches Ok(Some(_))
            && record.spec_author() != create.author,
        holds(records, tool.permission_hash),
        forall|id: RevisionId| #[trigger]
            lookup(records, id) matches Some(record)
                && record.entry.spec_to_contributor_permission() matches Ok(Some(permission))
                ==> !(permission.for_agent == create.author && permission.for_collective
                == tool.developer_collective),
    ensures
        validate_answer(
            records,
            anchors,
            FlatOp::StoreRecord(
                OpRecord::CreateEntry { app_entry: EntryTypes::Tool(tool), action: create },
            ),
        ) matches Ok(ValidateCallbackResult::Invalid(reason)) && reason.spec_class()
            == ErrorClass::AuthorizationDenied,
{
    assert(lookup(records, tool.permission_hash) is Some);
}

/// Who names as permission a record that is in the store and holds no
/// permission, or names the collective without having created it, is refused
/// because no permission was found.
pub proof fn lemma_no_permission_is_a_refusal(
    records: Seq<Record>,
    permission_hash: RevisionId,
    agent: Principal,
    collective: RevisionId,
    timestamp: Timestamp,
)
    requires
        fetch(records, permission_hash) matches Ok(record) && if permission_hash == collective {
            record.spec_author() != agent
        } else {
            !(record.entry.spec_to_contributor_permission() matches Ok(Some(_)))
        },
    ensures
        contributor_permission_answer(records, permission_hash, agent, collective, timestamp)
            == invalid(Reason::NoPermission),
{
}

/// The permission check never fails on what it finds: it passes, refuses,
/// or waits for a record.
pub proof fn lemma_permission_check_passes_refuses_or_waits(
    records: Seq<Record>,
    permission_hash: RevisionId,
    agent: Principal,
    collective: RevisionId,
    timestamp: Timestamp,
)
    ensures
        contributor_permission_answer(records, permission_hash, agent, collective, timestamp) is Ok
            || contributor_permission_answer(
            records,
            permission_hash,
            agent,
            collective,
            timestamp,
        ) == missing(permission_hash),
{
}

/// The edges of a revision chain and the edges that lead to permissions
/// stay for good: their removal is never admitted.
pub proof fn lemma_chain_and_permission_edges_stay(
    records: Seq<Record>,
    link_type: LinkTypes,
    action: DeleteLink,
    original_action: CreateLink,
    base: LinkableHash,
    target: LinkableHash,
)
    requires
        link_type == LinkTypes::CuratorUpdates || link_type == LinkTypes::DeveloperCollectiveUpdates
            || link_type == LinkTypes::ToolUpdates || link_type
            == LinkTypes::DeveloperCollectiveToContributorPermissions || link_type
            == LinkTypes::ContributorToContributorPermissions,
    ensures
        delete_link_answer(records, link_type, action, original_action, base, target)
            matches Ok(ValidateCallbackResult::Invalid(_)),
{
}

/// The permission check passes exactly for the owner of the collective, who
/// names the collective itself, and for a principal who names a permission
/// that permits it.
pub proof fn lemma_permission_check_is_exact(
    records: Seq<Record>,
    permission_hash: RevisionId,
    agent: Principal,
    collective: RevisionId,
    timestamp: Timestamp,
)
    ensures
        contributor_permission_answer(records, permission_hash, agent, collective, timestamp)
            == valid() <==> authorizes(records, permission_hash, agent, collective, timestamp),
{
}

/// A permission that permits a step at some time permits it at any earlier
/// time too: only the end of a permission takes anything away.
pub proof fn lemma_permitted_earlier(
    permission: ContributorPermission,
    agent: Principal,
    collective: RevisionId,
    timestamp: Timestamp,
    earlier: Timestamp,
)
    requires
        permits(permission, agent, collective, timestamp),
        earlier.0 <= timestamp.0,
    ensures
        permits(permission, agent, collective, earlier),
{
}

/// The answer of the permission check that reached a verdict stays what it
/// is when the store grows: a verdict is final.
pub proof fn lemma_permission_verdict_is_final(
    records: Seq<Record>,
    record: Record,
    permission_hash: RevisionId,
    agent: Principal,
    collective: RevisionId,
    timestamp: Timestamp,
)
    requires
        distinct_addresses(records),
        !holds(records, record.action_address),
        !(contributor_permission_answer(records, permission_hash, agent, collective, timestamp)
            matches Err(ValidationError::DependencyMissing(_))),
    ensures
        contributor_permission_answer(
            records.push(record),
            permission_hash,
            agent,
            collective,
            timestamp,
        ) == contributor_permission_answer(records, permission_hash, agent, collective, timestamp),
{
    lemma_lookup_survives(records, record, permission_hash);
}

/// What is in the store stays in it, unchanged, when the store takes a
/// record with a new identity.
pub proof fn lemma_lookup_survives(records: Seq<Record>, record: Record, id: RevisionId)
    requires
        distinct_addresses(records),
        !holds(records, record.action_address),
    ensures
        distinct_addresses(records.push(record)),
        lookup(records, id) is Some ==> lookup(records.push(record), id) == lookup(records, id),
        lookup(records, id) is None ==> lookup(records.push(record), id) == if id
            == record.action_address {
            Some(record)
        } else {
            None
        },
{
    let grown = records.push(record);
    assert forall|i: int, j: int| 0 <= i < j < grown.len() implies grown[i].action_address
        != grown[j].action_address by {
        if j == records.len() {
            assert(records[i].action_address == grown[i].action_address);
        }
    }
    if holds(grown, id) {
        let j = choose|j: int| 0 <= j < grown.len() && #[trigger] grown[j].action_address == id;
        if lookup(records, id) is Some {
            let i = choose|i: int|
                0 <= i < records.len() && #[trigger] records[i].action_address == id;
            assert(grown[i].action_address == id);
            assert(i == j);
        } else {
            if j < records.len() {
                assert(records[j].action_address == id);
            }
        }
    } else {
        if lookup(records, id) is Some {
            let i = choose|i: int|
                0 <= i < records.len() && #[trigger] records[i].action_address == id;
            assert(grown[i].action_address == id);
        }
        if id == record.action_address {
            assert(grown[records.len() as int].action_address == id);
        }
    }
}

/// Whether an answer is the failure on a record that is not in the store:
/// the one answer that a later run can change.
pub open spec fn is_waiting(answer: ValidationResult) -> bool {
    spec_classify(answer) == Some(ErrorClass::DependencyMissing)
}

/// Every record of the store is found again, unchanged, after the store
/// took a record with a new identity.
pub proof fn lemma_fetch_survives(records: Seq<Record>, record: Record)
    requires
        distinct_addresses(records),
        !holds(records, record.action_address),
    ensures
        forall|id: RevisionId| #[trigger]
            fetch(records, id) is Ok ==> fetch(records.push(record), id) == fetch(records, id),
{
    assert forall|id: RevisionId| #[trigger] fetch(records, id) is Ok implies fetch(
        records.push(record),
        id,
    ) == fetch(records, id) by {
        lemma_lookup_survives(records, record, id);
    }
}

/// An answer is final: once a rule has admitted or refused a new edge, or
/// has failed on what it found, it answers the same however the store grows.
pub proof fn lemma_create_link_verdict_is_final(
    records: Seq<Record>,
    record: Record,
    anchors: Anchors,
    link_type: LinkTypes,
    action: CreateLink,
    base_address: LinkableHash,
    target_address: LinkableHash,
    tag: Seq<u8>,
)
    requires
        distinct_addresses(records),
        !holds(records, record.action_address),
        !is_waiting(
            create_link_answer(
                records,
                anchors,
                link_type,
                action,
                base_address,
                target_address,
                tag,
            ),
        ),
    ensures
        create_link_answer(
            records.push(record),
            anchors,
            link_type,
            action,
            base_address,
            target_address,
            tag,
        ) == create_link_answer(
            records,
            anchors,
            link_type,
            action,
            base_address,
            target_address,
            tag,
        ),
{
    lemma_fetch_survives(records, record);
}

/// An answer is final: once a rule has admitted or refused the removal of
/// an edge, or has failed on what it found, it answers the same however the
/// store grows.
pub proof fn lemma_delete_link_verdict_is_final(
    records: Seq<Record>,
    record: Record,
    link_type: LinkTypes,
    action: DeleteLink,
    original_action: CreateLink,
    base: LinkableHash,
    target: LinkableHash,
)
    requires
        distinct_addresses(records),
        !holds(records, record.action_address),
        !is_waiting(delete_link_answer(records, link_type, action, original_action, base, target)),
    ensures
        delete_link_answer(records.push(record), link_type, action, original_action, base, target)
            == delete_link_answer(records, link_type, action, original_action, base, target),
{
    lemma_fetch_survives(records, record);
}

proof fn lemma_create_entry_answer_is_final(
    records: Seq<Record>,
    record: Record,
    action: EntryCreationAction,
    app_entry: EntryTypes,
)
    requires
        distinct_addresses(records),
        !holds(records, record.action_address),
        !is_waiting(create_entry_answer(records, action, app_entry)),
    ensures
        create_entry_answer(records.push(record), action, app_entry) == create_entry_answer(
            records,
            action,
            app_entry,
        ),
{
    lemma_fetch_survives(records, record);
}

proof fn lemma_update_entry_answer_is_final(
    records: Seq<Record>,
    record: Record,
    action: Update,
    app_entry: EntryTypes,
    original_action: EntryCreationAction,
    original_app_entry: EntryTypes,
)
    requires
        distinct_addresses(records),
        !holds(records, record.action_address),
        !is_waiting(
            update_entry_answer(records, action, app_entry, original_action, original_app_entry),
        ),
    ensures
        update_entry_answer(
            records.push(record),
            action,
            app_entry,
            original_action,
            original_app_entry,
        ) == update_entry_answer(records, action, app_entry, original_action, original_app_entry),
{
    lemma_fetch_survives(records, record);
}

proof fn lemma_delete_entry_answer_is_final(
    records: Seq<Record>,
    record: Record,
    action: Delete,
    original_action: EntryCreationAction,
    original_app_entry: EntryTypes,
)
    requires
        distinct_addresses(records),
        !holds(records, record.action_address),
        !is_waiting(delete_entry_answer(records, action, original_action, original_app_entry)),
    ensures
        delete_entry_answer(records.push(record), action, original_action, original_app_entry)
            == delete_entry_answer(records, action, original_action, original_app_entry),
{
    lemma_fetch_survives(records, record);
}

proof fn lemma_register_update_answer_is_final(
    records: Seq<Record>,
    record: Record,
    original_action_hash: RevisionId,
    app_entry: EntryTypes,
    action: Update,
)
    requires
        distinct_addresses(records),
        !holds(records, record.action_address),
        !is_waiting(register_update_answer(records, original_action_hash, app_entry, action)),
    ensures
        register_update_answer(records.push(record), original_action_hash, app_entry, action)
            == register_update_answer(records, original_action_hash, app_entry, action),
{
    lemma_fetch_survives(records, record);
    match fetch(records, original_action_hash) {
        Ok(original_record) => {
            match (original_record.action.spec_entry_creation(), original_record.entry) {
                (
                    Some(original_action),
                    RecordEntry::Present(Entry::App(original_app_entry)),
                ) => {
                    lemma_update_entry_answer_is_final(
                        records,
                        record,
                        action,
                        app_entry,
                        original_action,
                        original_app_entry,
                    );
                },
                _ => {},
            }
        },
        Err(_) => {},
    }
}

proof fn lemma_store_update_answer_is_final(
    records: Seq<Record>,
    record: Record,
    original_action_hash: RevisionId,
    app_entry: EntryTypes,
    action: Update,
)
    requires
        distinct_addresses(records),
        !holds(records, record.action_address),
        !is_waiting(store_update_answer(records, original_action_hash, app_entry, action)),
    ensures
        store_update_answer(records.push(record), original_action_hash, app_entry, action)
            == store_update_answer(records, original_action_hash, app_entry, action),
{
    lemma_register_update_answer_is_final(
        records,
        record,
        original_action_hash,
        app_entry,
        action,
    );
    if register_update_answer(records, original_action_hash, app_entry, action) == valid() {
        lemma_create_entry_answer_is_final(
            records,
            record,
            EntryCreationAction::Update(action),
            app_entry,
        );
    }
}

proof fn lemma_register_delete_answer_is_final(
    records: Seq<Record>,
    record: Record,
    original_action_hash: RevisionId,
    action: Delete,
)
    requires
        distinct_addresses(records),
        !holds(records, record.action_address),
        !is_waiting(register_delete_answer(records, original_action_hash, action)),
    ensures
        register_delete_answer(records.push(record), original_action_hash, action)
            == register_delete_answer(records, original_action_hash, action),
{
    lemma_fetch_survives(records, record);
    match fetch(records, original_action_hash) {
        Ok(original_record) => {
            match (
                original_record.action.spec_entry_creation(),
                original_record.entry.spec_as_option(),
            ) {
                (Some(original_action), Some(Entry::App(original_app_entry))) => {
                    if original_action.spec_entry_type() is App {
                        lemma_delete_entry_answer_is_final(
                            records,
                            record,
                            action,
                            original_action,
                            original_app_entry,
                        );
                    }
                },
                _ => {},
            }
        },
        Err(_) => {},
    }
}

/// An answer is final: once the rules have admitted or refused a mutation,
/// or have failed on what they found, they answer the same however the store
/// grows. Only a run that waits for a record can end otherwise later.
pub proof fn lemma_verdicts_are_final(
    records: Seq<Record>,
    record: Record,
    anchors: Anchors,
    op: FlatOp,
)
    requires
        distinct_addresses(records),
        !holds(records, record.action_address),
        !is_waiting(validate_answer(records, anchors, op)),
    ensures
        validate_answer(records.push(record), anchors, op) == validate_answer(records, anchors, op),
{
    lemma_fetch_survives(records, record);
    match op {
        FlatOp::StoreEntry(OpEntry::CreateEntry { app_entry, action }) => {
            lemma_create_entry_answer_is_final(
                records,
                record,
                EntryCreationAction::Create(action),
                app_entry,
            );
        },
        FlatOp::StoreEntry(OpEntry::UpdateEntry { app_entry, action }) => {
            lemma_store_update_answer_is_final(
                records,
                record,
                action.original_action_address,
                app_entry,
                action,
            );
        },
        FlatOp::RegisterUpdate(
            OpUpdate::Entry { original_action, original_app_entry, app_entry, action },
        ) => {
            lemma_update_entry_answer_is_final(
                records,
                record,
                action,
                app_entry,
                original_action,
                original_app_entry,
            );
        },
        FlatOp::RegisterDelete(OpDelete::Entry { original_action, original_app_entry, action }) => {
            lemma_delete_entry_answer_is_final(
                records,
                record,
                action,
                original_action,
                original_app_entry,
            );
        },
        FlatOp::StoreRecord(OpRecord::CreateEntry { app_entry, action }) => {
            lemma_create_entry_answer_is_final(
                records,
                record,
                EntryCreationAction::Create(action),
                app_entry,
            );
        },
        FlatOp::StoreRecord(OpRecord::UpdateEntry { original_action_hash, app_entry, action }) => {
            lemma_store_update_answer_is_final(
                records,
                record,
                original_action_hash,
                app_entry,
                action,
            );
        },
        FlatOp::StoreRecord(OpRecord::DeleteEntry { original_action_hash, action }) => {
            lemma_register_delete_answer_is_final(records, record, original_action_hash, action);
        },
        FlatOp::RegisterCreateLink { link_type, base_address, target_address, tag, action } => {
            lemma_create_link_verdict_is_final(
                records,
                record,
                anchors,
                link_type,
                action,
                base_address,
                target_address,
                tag@,
            );
        },
        FlatOp::RegisterDeleteLink {
            link_type,
            base_address,
            target_address,
            tag,
            original_action,
            action,
        } => {
            lemma_delete_link_verdict_is_final(
                records,
                record,
                link_type,
                action,
                original_action,
                base_address,
                target_address,
            );
        },
        FlatOp::StoreRecord(
            OpRecord::CreateLink { base_address, target_address, tag, link_type, action },
        ) => {
            lemma_create_link_verdict_is_final(
                records,
                record,
                anchors,
                link_type,
                action,
                base_address,
                target_address,
                tag@,
            );
        },
        FlatOp::StoreRecord(
            OpRecord::DeleteLink { original_action_hash, base_address, action },
        ) => {
            let original = fetch(records, original_action_hash)->Ok_0;
            match original.action {
                Action::CreateLink(create_link) => {
                    if create_link.link_type is Some {
                        lemma_delete_link_verdict_is_final(
                            records,
                            record,
                            create_link.link_type->Some_0,
                            action,
                            create_link,
                            base_address,
                            create_link.target_address,
                        );
                    }
                },
                _ => {},
            }
        },
        _ => {},
    }
}

/// The failure on a record that is not in the store, as a failure of
/// anything.
pub open spec fn is_missing(answer: ValidationResult, id: RevisionId) -> bool {
    answer == Err::<ValidateCallbackResult, ValidationError>(
        ValidationError::DependencyMissing(id),
    )
}

proof fn lemma_missing_permission(
    records: Seq<Record>,
    permission_hash: RevisionId,
    agent: Principal,
    collective: RevisionId,
    timestamp: Timestamp,
    id: RevisionId,
)
    requires
        is_missing(
            contributor_permission_answer(records, permission_hash, agent, collective, timestamp),
            id,
        ),
    ensures
        !holds(records, id),
{
}

proof fn lemma_missing_create_entry(
    records: Seq<Record>,
    action: EntryCreationAction,
    app_entry: EntryTypes,
    id: RevisionId,
)
    requires
        is_missing(create_entry_answer(records, action, app_entry), id),
    ensures
        !holds(records, id),
{
    match app_entry {
        EntryTypes::Tool(tool) => {
            if fetch(records, tool.developer_collective) is Ok {
                lemma_missing_permission(
                    records,
                    tool.permission_hash,
                    action.spec_author(),
                    tool.developer_collective,
                    action.spec_timestamp(),
                    id,
                );
            }
        },
        _ => {},
    }
}

proof fn lemma_missing_update_entry(
    records: Seq<Record>,
    action: Update,
    app_entry: EntryTypes,
    original_action: EntryCreationAction,
    original_app_entry: EntryTypes,
    id: RevisionId,
)
    requires
        is_missing(
            update_entry_answer(records, action, app_entry, original_action, original_app_entry),
            id,
        ),
    ensures
        !holds(records, id),
{
    match (app_entry, original_app_entry) {
        (EntryTypes::Tool(tool), EntryTypes::Tool(original_tool)) => {
            lemma_missing_permission(
                records,
                tool.permission_hash,
                action.author,
                original_tool.developer_collective,
                action.timestamp,
                id,
            );
        },
        _ => {},
    }
}

proof fn lemma_missing_register_update(
    records: Seq<Record>,
    original_action_hash: RevisionId,
    app_entry: EntryTypes,
    action: Update,
    id: RevisionId,
)
    requires
        is_missing(register_update_answer(records, original_action_hash, app_entry, action), id),
    ensures
        !holds(records, id),
{
    match fetch(records, original_action_hash) {
        Ok(original_record) => {
            match (original_record.action.spec_entry_creation(), original_record.entry) {
                (
                    Some(original_action),
                    RecordEntry::Present(Entry::App(original_app_entry)),
                ) => {
                    lemma_missing_update_entry(
                        records,
                        action,
                        app_entry,
                        original_action,
                        original_app_entry,
                        id,
                    );
                },
                _ => {},
            }
        },
        Err(_) => {},
    }
}

proof fn lemma_missing_store_update(
    records: Seq<Record>,
    original_action_hash: RevisionId,
    app_entry: EntryTypes,
    action: Update,
    id: RevisionId,
)
    requires
        is_missing(store_update_answer(records, original_action_hash, app_entry, action), id),
    ensures
        !holds(records, id),
{
    if register_update_answer(records, original_action_hash, app_entry, action) == valid() {
        lemma_missing_create_entry(records, EntryCreationAction::Update(action), app_entry, id);
    } else {
        lemma_missing_register_update(records, original_action_hash, app_entry, action, id);
    }
}

proof fn lemma_missing_tool_permission(
    records: Seq<Record>,
    permission_hash: RevisionId,
    agent: Principal,
    timestamp: Timestamp,
    base: LinkableHash,
    id: RevisionId,
)
    requires
        is_missing(tool_permission_answer(records, permission_hash, agent, timestamp, base), id),
    ensures
        !holds(records, id),
{
    match base.spec_into_action_hash() {
        Some(tool_hash) => {
            match fetch_tool(records, tool_hash) {
                Ok(tool) => {
                    lemma_missing_permission(
                        records,
                        permission_hash,
                        agent,
                        tool.developer_collective,
                        timestamp,
                        id,
                    );
                },
                Err(_) => {},
            }
        },
        None => {},
    }
}

proof fn lemma_missing_create_link(
    records: Seq<Record>,
    anchors: Anchors,
    link_type: LinkTypes,
    action: CreateLink,
    base_address: LinkableHash,
    target_address: LinkableHash,
    tag: Seq<u8>,
    id: RevisionId,
)
    requires
        is_missing(
            create_link_answer(
                records,
                anchors,
                link_type,
                action,
                base_address,
                target_address,
                tag,
            ),
            id,
        ),
    ensures
        !holds(records, id),
{
    match link_type {
        LinkTypes::DeveloperCollectiveToTools => {
            match (RevisionId::spec_from_raw_39(tag), base_address.spec_into_action_hash()) {
                (Ok(permission_hash), Some(collective)) => {
                    if !(contributor_permission_answer(
                        records,
                        permission_hash,
                        action.author,
                        collective,
                        action.timestamp,
                    ) is Ok) {
                        lemma_missing_permission(
                            records,
                            permission_hash,
                            action.author,
                            collective,
                            action.timestamp,
                            id,
                        );
                    }
                },
                _ => {},
            }
        },
        LinkTypes::ToolUpdates | LinkTypes::ToolToTag => {
            match RevisionId::spec_from_raw_39(tag) {
                Ok(permission_hash) => {
                    if !(tool_permission_answer(
                        records,
                        permission_hash,
                        action.author,
                        action.timestamp,
                        base_address,
                    ) is Ok) {
                        lemma_missing_tool_permission(
                            records,
                            permission_hash,
                            action.author,
                            action.timestamp,
                            base_address,
                            id,
                        );
                    }
                },
                Err(_) => {},
            }
        },
        _ => {},
    }
}

proof fn lemma_missing_delete_link(
    records: Seq<Record>,
    link_type: LinkTypes,
    action: DeleteLink,
    original_action: CreateLink,
    base: LinkableHash,
    target: LinkableHash,
    id: RevisionId,
)
    requires
        is_missing(
            delete_link_answer(records, link_type, action, original_action, base, target),
            id,
        ),
    ensures
        !holds(records, id),
{
    match link_type {
        LinkTypes::ToolToTag => {
            match fetch(records, action.prev_action) {
                Ok(previous) => {
                    match previous.entry.spec_to_contributor_permission_claim() {
                        Ok(Some(claim)) => {
                            lemma_missing_tool_permission(
                                records,
                                claim.permission_hash,
                                action.author,
                                action.timestamp,
                                base,
                                id,
                            );
                        },
                        _ => {},
                    }
                },
                Err(_) => {},
            }
        },
        _ => {},
    }
}

proof fn lemma_missing_delete_entry(
    records: Seq<Record>,
    action: Delete,
    original_action: EntryCreationAction,
    original_app_entry: EntryTypes,
    id: RevisionId,
)
    requires
        is_missing(delete_entry_answer(records, action, original_action, original_app_entry), id),
    ensures
        !holds(records, id),
{
}

/// A run that reached no verdict because a record is not in the store names
/// a record that is indeed not there.
pub proof fn lemma_missing_is_missing(
    records: Seq<Record>,
    anchors: Anchors,
    op: FlatOp,
    id: RevisionId,
)
    requires
        is_missing(validate_answer(records, anchors, op), id),
    ensures
        !holds(records, id),
{
    match op {
        FlatOp::StoreEntry(OpEntry::CreateEntry { app_entry, action }) => {
            lemma_missing_create_entry(records, EntryCreationAction::Create(action), app_entry, id);
        },
        FlatOp::StoreEntry(OpEntry::UpdateEntry { app_entry, action }) => {
            lemma_missing_store_update(
                records,
                action.original_action_address,
                app_entry,
                action,
                id,
            );
        },
        FlatOp::RegisterUpdate(
            OpUpdate::Entry { original_action, original_app_entry, app_entry, action },
        ) => {
            lemma_missing_update_entry(
                records,
                action,
                app_entry,
                original_action,
                original_app_entry,
                id,
            );
        },
        FlatOp::RegisterDelete(OpDelete::Entry { original_action, original_app_entry, action }) => {
            lemma_missing_delete_entry(records, action, original_action, original_app_entry, id);
        },
        FlatOp::RegisterCreateLink { link_type, base_address, target_address, tag, action } => {
            lemma_missing_create_link(
                records,
                anchors,
                link_type,
                action,
                base_address,
                target_address,
                tag@,
                id,
            );
        },
        FlatOp::RegisterDeleteLink {
            link_type,
            base_address,
            target_address,
            tag,
            original_action,
            action,
        } => {
            lemma_missing_delete_link(
                records,
                link_type,
                action,
                original_action,
                base_address,
                target_address,
                id,
            );
        },
        FlatOp::StoreRecord(OpRecord::CreateEntry { app_entry, action }) => {
            lemma_missing_create_entry(records, EntryCreationAction::Create(action), app_entry, id);
        },
        FlatOp::StoreRecord(OpRecord::UpdateEntry { original_action_hash, app_entry, action }) => {
            lemma_missing_store_update(records, original_action_hash, app_entry, action, id);
        },
        FlatOp::StoreRecord(OpRecord::DeleteEntry { original_action_hash, action }) => {
            match fetch(records, original_action_hash) {
                Ok(original_record) => {
                    match (
                        original_record.action.spec_entry_creation(),
                        original_record.entry.spec_as_option(),
                    ) {
                        (Some(original_action), Some(entry)) => {
                            match spec_deserialize(entry) {
                                Ok(Some(original_app_entry)) => {
                                    if original_action.spec_entry_type() is App {
                                        lemma_missing_delete_entry(
                                            records,
                                            action,
                                            original_action,
                                            original_app_entry,
                                            id,
                                        );
                                    }
                                },
                                _ => {},
                            }
                        },
                        _ => {},
                    }
                },
                Err(_) => {},
            }
        },
        FlatOp::StoreRecord(
            OpRecord::CreateLink { base_address, target_address, tag, link_type, action },
        ) => {
            lemma_missing_create_link(
                records,
                anchors,
                link_type,
                action,
                base_address,
                target_address,
                tag@,
                id,
            );
        },
        FlatOp::StoreRecord(
            OpRecord::DeleteLink { original_action_hash, base_address, action },
        ) => {
            match fetch(records, original_action_hash) {
                Ok(original) => {
                    match original.action {
                        Action::CreateLink(create_link) => {
                            if create_link.link_type is Some {
                                lemma_missing_delete_link(
                                    records,
                                    create_link.link_type->Some_0,
                                    action,
                                    create_link,
                                    base_address,
                                    create_link.target_address,
                                    id,
                                );
                            }
                        },
                        _ => {},
                    }
                },
                Err(_) => {},
            }
        },
        _ => {},
    }
}

/// Every element of what a filtering map gives comes from an element of the
/// sequence that was mapped.
pub proof fn lemma_filter_map_origin<A, B>(s: Seq<A>, f: spec_fn(A) -> Option<B>, i: int)
    requires
        0 <= i < s.filter_map(f).len(),
    ensures
        exists|j: int| 0 <= j < s.len() && f(#[trigger] s[j]) == Some(s.filter_map(f)[i]),
    decreases s.len(),
{
    if s.len() > 0 {
        let rest = s.drop_last();
        let before = rest.filter_map(f);
        if i < before.len() {
            lemma_filter_map_origin(rest, f, i);
            let j = choose|j: int| 0 <= j < rest.len() && f(#[trigger] rest[j]) == Some(before[i]);
            assert(s[j] == rest[j]);
            assert(f(s[j]) == Some(s.filter_map(f)[i]));
        } else {
            assert(f(s[s.len() - 1]) == Some(s.filter_map(f)[i]));
        }
    }
}

/// What a principal holds for a collective at some time passes the
/// permission check for a step of that principal at that time: reading and
/// checking agree.
pub proof fn lemma_held_permission_passes_the_check(
    records: Seq<Record>,
    agent: Principal,
    collective: RevisionId,
    now: Timestamp,
)
    requires
        live(records, collective) matches Some(record)
            && record.entry.spec_to_developer_collective() matches Ok(Some(_)),
        spec_agent_permission(records, agent, collective, now) is Some,
    ensures
        contributor_permission_answer(
            records,
            spec_agent_permission(records, agent, collective, now)->Some_0,
            agent,
            collective,
            now,
        ) == valid(),
{
    let owner_record = live(records, collective)->Some_0;
    if owner_record.spec_author() != agent {
        let found = grants(records, agent, collective);
        lemma_first_indefinite(found);
        lemma_longest(found);
        let grant = if first_indefinite(found) is Some {
            first_indefinite(found)->Some_0
        } else {
            longest(found)->Some_0
        };
        let i = choose|i: int| 0 <= i < found.len() && found[i] == grant;
        let edges = links(
            records,
            LinkableHash::Action(collective),
            LinkTypes::DeveloperCollectiveToContributorPermissions,
        );
        let read = |edge: Record| grant_of_link(records, edge, agent, collective);
        lemma_filter_map_origin(edges, read, i);
        let j = choose|j: int| 0 <= j < edges.len() && read(#[trigger] edges[j]) == Some(found[i]);
        assert(grant_of_link(records, edges[j], agent, collective) == Some(grant));
    }
}

/// The edge that is planned for a new tool is admitted whenever the tool
/// itself is: it names the same permission, for the same collective, and is
/// checked for the same principal at the same time.
pub proof fn lemma_planned_tool_link_is_admitted(
    records: Seq<Record>,
    anchors: Anchors,
    tool: Tool,
    tool_hash: RevisionId,
    create: Create,
    link: CreateLink,
    planned: CreateLinkInput,
)
    requires
        planned.connects(
            LinkableHash::Action(tool.developer_collective),
            LinkableHash::Action(tool_hash),
            LinkTypes::DeveloperCollectiveToTools,
            tool.permission_hash.spec_raw_39(),
        ),
        create_tool_answer(records, EntryCreationAction::Create(create), tool) == valid(),
        fetch_tool(records, tool_hash) == Ok::<Tool, ValidationError>(tool),
        link.author == create.author,
        link.timestamp == create.timestamp,
    ensures
        create_link_answer(
            records,
            anchors,
            planned.link_type,
            link,
            planned.base_address,
            planned.target_address,
            planned.tag@,
        ) == valid(),
{
    lemma_revision_id_round_trip(tool.permission_hash);
}

/// The edges that are planned for a new permission are admitted when they
/// are made by the principal that created the collective and issued the
/// permission.
pub proof fn lemma_planned_permission_links_are_admitted(
    records: Seq<Record>,
    anchors: Anchors,
    permission: ContributorPermission,
    permission_hash: RevisionId,
    link: CreateLink,
    from_collective: CreateLinkInput,
    from_contributor: CreateLinkInput,
)
    requires
        from_collective.connects(
            LinkableHash::Action(permission.for_collective),
            LinkableHash::Action(permission_hash),
            LinkTypes::DeveloperCollectiveToContributorPermissions,
            permission.for_agent.spec_raw_39(),
        ),
        from_contributor.connects(
            LinkableHash::from_agent(permission.for_agent),
            LinkableHash::Action(permission_hash),
            LinkTypes::ContributorToContributorPermissions,
            permission.for_collective.spec_raw_39(),
        ),
        fetch(records, permission.for_collective) matches Ok(record) && record.spec_author()
            == link.author && record.entry.spec_to_developer_collective() matches Ok(Some(_)),
        fetch(records, permission_hash) matches Ok(record) && record.spec_author() == link.author
            && record.entry.spec_to_contributor_permission() == Ok::<
            Option<ContributorPermission>,
            ValidationError,
        >(Some(permission)),
    ensures
        create_link_answer(
            records,
            anchors,
            from_collective.link_type,
            link,
            from_collective.base_address,
            from_collective.target_address,
            from_collective.tag@,
        ) == valid(),
        create_link_answer(
            records,
            anchors,
            from_contributor.link_type,
            link,
            from_contributor.base_address,
            from_contributor.target_address,
            from_contributor.tag@,
        ) == valid(),
{
    lemma_revision_id_round_trip(permission.for_collective);
    lemma_principal_round_trip(permission.for_agent);
}

/// An edge is admitted only with a tag that names what the tag of an edge
/// of its kind has to name: a tag that cannot be read is never let through.
pub proof fn lemma_admitted_edge_has_a_readable_tag(
    records: Seq<Record>,
    anchors: Anchors,
    link_type: LinkTypes,
    action: CreateLink,
    base_address: LinkableHash,
    target_address: LinkableHash,
    tag: Seq<u8>,
)
    requires
        create_link_answer(records, anchors, link_type, action, base_address, target_address, tag)
            == valid(),
        link_type.spec_tag_kind() is Some,
    ensures
        tag_names(link_type.spec_tag_kind()->Some_0, tag),
        tag.len() == 39,
{
}

/// An edge that leads to a permission is admitted only with a tag that says
/// what the permission says: from the collective, the tag names the principal
/// that the permission is for; from the principal, it names the collective.
/// A tag that says anything else is a forgery and is refused.
pub proof fn lemma_admitted_permission_edge_is_not_forged(
    records: Seq<Record>,
    anchors: Anchors,
    link_type: LinkTypes,
    action: CreateLink,
    base_address: LinkableHash,
    target_address: LinkableHash,
    tag: Seq<u8>,
)
    requires
        create_link_answer(records, anchors, link_type, action, base_address, target_address, tag)
            == valid(),
        link_type == LinkTypes::DeveloperCollectiveToContributorPermissions || link_type
            == LinkTypes::ContributorToContributorPermissions,
    ensures
        fetch_linked_permission(records, target_address) is Ok,
        ({
            let permission = fetch_linked_permission(records, target_address)->Ok_0;
            if link_type == LinkTypes::DeveloperCollectiveToContributorPermissions {
                &&& Principal::spec_from_raw_39(tag) == Ok::<Principal, HashError>(
                    permission.for_agent,
                )
                &&& base_address == LinkableHash::Action(permission.for_collective)
            } else {
                &&& RevisionId::spec_from_raw_39(tag) == Ok::<RevisionId, HashError>(
                    permission.for_collective,
                )
                &&& base_address.spec_into_agent_pub_key() == Some(permission.for_agent)
            }
        }),
{
}

/// An edge from a collective to a tool is admitted only where the tool
/// belongs to that collective and the maker of the edge passes the permission
/// check with the permission that the tag names.
pub proof fn lemma_admitted_tool_edge_is_authorized(
    records: Seq<Record>,
    anchors: Anchors,
    action: CreateLink,
    base_address: LinkableHash,
    target_address: LinkableHash,
    tag: Seq<u8>,
)
    requires
        create_link_answer(
            records,
            anchors,
            LinkTypes::DeveloperCollectiveToTools,
            action,
            base_address,
            target_address,
            tag,
        ) == valid(),
    ensures
        base_address is Action,
        target_address is Action,
        RevisionId::spec_from_raw_39(tag) is Ok,
        fetch_tool(records, target_address->Action_0) is Ok,
        LinkableHash::Action(
            fetch_tool(records, target_address->Action_0)->Ok_0.developer_collective,
        ) == base_address,
        authorizes(
            records,
            RevisionId::spec_from_raw_39(tag)->Ok_0,
            action.author,
            base_address->Action_0,
            action.timestamp,
        ),
{
}

/// A tool is admitted only where its author passes the permission check for
/// the collective of the tool, with the permission that the tool names, at
/// the time that the author declares.
pub proof fn lemma_admitted_tool_is_authorized(
    records: Seq<Record>,
    anchors: Anchors,
    create: Create,
    tool: Tool,
)
    requires
        validate_answer(
            records,
            anchors,
            FlatOp::StoreRecord(
                OpRecord::CreateEntry { app_entry: EntryTypes::Tool(tool), action: create },
            ),
        ) == valid(),
    ensures
        authorizes(
            records,
            tool.permission_hash,
            create.author,
            tool.developer_collective,
            create.timestamp,
        ),
        fetch(records, tool.developer_collective) is Ok,
{
}

/// A permission is admitted only where the principal that created the
/// collective issues it.
pub proof fn lemma_admitted_permission_is_issued_by_the_owner(
    records: Seq<Record>,
    anchors: Anchors,
    create: Create,
    permission: ContributorPermission,
)
    requires
        validate_answer(
            records,
            anchors,
            FlatOp::StoreRecord(
                OpRecord::CreateEntry {
                    app_entry: EntryTypes::ContributorPermission(permission),
                    action: create,
                },
            ),
        ) == valid(),
    ensures
        fetch(records, permission.for_collective) matches Ok(record) && record.spec_author()
            == create.author,
{
}

} // verus!
