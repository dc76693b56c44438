//! Revision chains.
//!
//! An entry is never changed. An update is a new record, and an edge from
//! the first record of the entry to the new one. The chain of an entry is
//! its first record with all the records that such edges point to.

use crate::hash::{LinkableHash, RevisionId};
use crate::integrity::LinkTypes;
use crate::outcome::ValidationError;
use crate::record::Record;
use crate::store::{
    all_links, deletes_of, fetch, is_ids_or_failure, is_list, is_list_or_failure, is_record,
    is_record_or_failure, lemma_filter_none, lemma_filter_step, link_deletes_of, links, live,
    lookup, records_of, ContentStore, LinkDetails,
};
use vstd::prelude::*;

verus! {

/// Whether the record `a` was made after the record `b`, by the time that
/// the records declare.
pub open spec fn made_after(a: Record, b: Record) -> bool {
    a.action.spec_timestamp().0 > b.action.spec_timestamp().0
}

/// The edge that was made last, by the time that the edges declare. Of
/// several edges made at the same time, it is the one that came to be known
/// last.
pub open spec fn latest_link(edges: Seq<Record>) -> Option<Record>
    decreases edges.len(),
{
    if edges.len() == 0 {
        None
    } else {
        match latest_link(edges.drop_last()) {
            Some(best) => if made_after(best, edges.last()) {
                Some(best)
            } else {
                Some(edges.last())
            },
            None => Some(edges.last()),
        }
    }
}

/// The latest edge is one of the edges, and none was made after it.
pub proof fn lemma_latest_link_is_latest(edges: Seq<Record>)
    requires
        edges.len() > 0,
    ensures
        latest_link(edges) is Some,
        edges.contains(latest_link(edges)->Some_0),
        forall|i: int|
            0 <= i < edges.len() ==> edges[i].action.spec_timestamp().0 <= latest_link(
                edges,
            )->Some_0.action.spec_timestamp().0,
    decreases edges.len(),
{
    let rest = edges.drop_last();
    if rest.len() > 0 {
        lemma_latest_link_is_latest(rest);
        let best = latest_link(rest)->Some_0;
        let i = choose|i: int| 0 <= i < rest.len() && rest[i] == best;
        assert(edges[i] == best);
        assert forall|i: int| 0 <= i < edges.len() implies edges[i].action.spec_timestamp().0
            <= latest_link(edges)->Some_0.action.spec_timestamp().0 by {
            if i < rest.len() {
                assert(rest[i] == edges[i]);
            }
        }
    }
    assert(edges[edges.len() - 1] == edges.last());
}

proof fn lemma_latest_link_step(edges: Seq<Record>, i: int)
    requires
        0 <= i < edges.len(),
    ensures
        latest_link(edges.take(i + 1)) == match latest_link(edges.take(i)) {
            Some(best) => if best.action.spec_timestamp().0 > edges[i].action.spec_timestamp().0 {
                Some(best)
            } else {
                Some(edges[i])
            },
            None => Some(edges[i]),
        },
{
    assert(edges.take(i + 1).drop_last() =~= edges.take(i));
    assert(edges.take(i + 1).last() == edges[i]);
}

/// The identity of the latest revision of the entry whose first record is
/// `original`: the end of the latest update edge, or `original` itself where
/// there is no such edge. It is a failure for the latest edge to point to
/// something else than a revision.
pub open spec fn spec_latest_action_hash(
    records: Seq<Record>,
    original: RevisionId,
    link_type: LinkTypes,
) -> Result<RevisionId, ValidationError> {
    match latest_link(links(records, LinkableHash::Action(original), link_type)) {
        None => Ok(original),
        Some(edge) => edge.spec_link_target_action_hash(),
    }
}

/// The identity of the latest revision of an entry.
pub fn latest_action_hash(
    store: &ContentStore,
    original: &RevisionId,
    link_type: LinkTypes,
) -> (latest: Result<RevisionId, ValidationError>)
    ensures
        latest == spec_latest_action_hash(store@, *original, link_type),
{
    let edges = store.get_links(&LinkableHash::Action(*original), link_type);
    if edges.len() == 0 {
        assert(records_of(edges@).len() == 0);
        return Ok(*original);
    }
    let mut best: &Record = edges[0];
    proof {
        lemma_latest_link_step(records_of(edges@), 0);
        assert(records_of(edges@).take(0).len() == 0);
    }
    let mut i: usize = 1;
    while i < edges.len()
        invariant
            1 <= i <= edges@.len(),
            latest_link(records_of(edges@).take(i as int)) == Some(*best),
        decreases edges@.len() - i,
    {
        proof {
            lemma_latest_link_step(records_of(edges@), i as int);
        }
        let edge: &Record = edges[i];
        if !(best.timestamp().0 > edge.timestamp().0) {
            best = edge;
        }
        i += 1;
    }
    assert(records_of(edges@).take(i as int) =~= records_of(edges@));
    best.link_target_action_hash()
}

/// The latest revision of the entry whose first record is `original`, as far
/// as it is shown: nothing, where something marks it as removed. Where no
/// update edge starts at `original`, the latest revision is `original`
/// itself. Where there are update edges, it is a failure for the record at
/// the end of the latest one not to be in the store.
pub open spec fn spec_latest(
    records: Seq<Record>,
    original: RevisionId,
    link_type: LinkTypes,
) -> Result<Option<Record>, ValidationError> {
    if links(records, LinkableHash::Action(original), link_type).len() == 0 {
        Ok(live(records, original))
    } else {
        match spec_latest_action_hash(records, original, link_type) {
            Err(e) => Err(e),
            Ok(id) => match fetch(records, id) {
                Err(e) => Err(e),
                Ok(_) => Ok(live(records, id)),
            },
        }
    }
}

/// The latest revision of an entry.
pub fn get_latest<'a>(
    store: &'a ContentStore,
    original: &RevisionId,
    link_type: LinkTypes,
) -> (latest: Result<Option<&'a Record>, ValidationError>)
    ensures
        is_record_or_failure(latest, spec_latest(store@, *original, link_type)),
{
    let edges = store.get_links(&LinkableHash::Action(*original), link_type);
    assert(records_of(edges@).len() == edges@.len());
    if edges.len() == 0 {
        return Ok(store.get(original));
    }
    let id = latest_action_hash(store, original, link_type)?;
    let _present = store.must_get_valid_record(&id)?;
    Ok(store.get(&id))
}

/// The first record of an entry, whether or not something marks it as
/// removed.
pub fn get_original<'a>(store: &'a ContentStore, original: &RevisionId) -> (found: Option<
    &'a Record,
>)
    ensures
        is_record(found, lookup(store@, *original)),
{
    match store.get_details(original) {
        Some(details) => Some(details.record),
        None => None,
    }
}

/// The records that a list of edges points to, in the order of the edges,
/// without those that something marks as removed. It is a failure for an
/// edge to point to something else than a revision, and for a record that an
/// edge points to not to be in the store; the first edge that fails gives the
/// failure.
pub open spec fn linked_records(records: Seq<Record>, edges: Seq<Record>) -> Result<
    Seq<Record>,
    ValidationError,
>
    decreases edges.len(),
{
    if edges.len() == 0 {
        Ok(Seq::empty())
    } else {
        match linked_records(records, edges.drop_last()) {
            Err(e) => Err(e),
            Ok(before) => match edges.last().spec_link_target_action_hash() {
                Err(e) => Err(e),
                Ok(id) => match fetch(records, id) {
                    Err(e) => Err(e),
                    Ok(record) => if deletes_of(records, id).len() > 0 {
                        Ok(before)
                    } else {
                        Ok(before.push(record))
                    },
                },
            },
        }
    }
}

proof fn lemma_linked_records_step(records: Seq<Record>, edges: Seq<Record>, i: int)
    requires
        0 <= i < edges.len(),
    ensures
        linked_records(records, edges.take(i + 1)) == match linked_records(
            records,
            edges.take(i),
        ) {
            Err(e) => Err(e),
            Ok(before) => match edges[i].spec_link_target_action_hash() {
                Err(e) => Err(e),
                Ok(id) => match fetch(records, id) {
                    Err(e) => Err(e),
                    Ok(record) => if deletes_of(records, id).len() > 0 {
                        Ok(before)
                    } else {
                        Ok(before.push(record))
                    },
                },
            },
        },
{
    assert(edges.take(i + 1).drop_last() =~= edges.take(i));
    assert(edges.take(i + 1).last() == edges[i]);
}

proof fn lemma_linked_records_failure(records: Seq<Record>, edges: Seq<Record>, i: int)
    requires
        0 <= i <= edges.len(),
        linked_records(records, edges.take(i)) is Err,
    ensures
        linked_records(records, edges) == linked_records(records, edges.take(i)),
    decreases edges.len() - i,
{
    if i < edges.len() {
        lemma_linked_records_step(records, edges, i);
        lemma_linked_records_failure(records, edges, i + 1);
    } else {
        assert(edges.take(i) =~= edges);
    }
}

fn extend_with_linked<'a>(
    store: &'a ContentStore,
    edges: &Vec<&'a Record>,
    found: &mut Vec<&'a Record>,
) -> (done: Result<(), ValidationError>)
    ensures
        match done {
            Ok(_) => linked_records(store@, records_of(edges@)) is Ok && records_of(final(found)@)
                == records_of(old(found)@) + linked_records(store@, records_of(edges@))->Ok_0,
            Err(e) => linked_records(store@, records_of(edges@)) == Err::<
                Seq<Record>,
                ValidationError,
            >(e),
        },
{
    let ghost listed = records_of(edges@);
    let ghost before = records_of(found@);
    let mut i: usize = 0;
    assert(listed.take(0) =~= Seq::<Record>::empty());
    assert(before + Seq::<Record>::empty() =~= before);
    while i < edges.len()
        invariant
            i <= edges@.len(),
            listed == records_of(edges@),
            linked_records(store@, listed.take(i as int)) is Ok,
            records_of(found@) == before + linked_records(store@, listed.take(i as int))->Ok_0,
        decreases edges@.len() - i,
    {
        proof {
            lemma_linked_records_step(store@, listed, i as int);
        }
        let edge: &Record = edges[i];
        let id = match edge.link_target_action_hash() {
            Ok(id) => id,
            Err(e) => {
                proof {
                    lemma_linked_records_failure(store@, listed, i as int + 1);
                }
                return Err(e);
            },
        };
        match store.must_get_valid_record(&id) {
            Ok(_) => {},
            Err(e) => {
                proof {
                    lemma_linked_records_failure(store@, listed, i as int + 1);
                }
                return Err(e);
            },
        }
        match store.get(&id) {
            Some(record) => {
                let ghost sofar = found@;
                found.push(record);
                assert(records_of(found@) =~= records_of(sofar).push(*record));
                assert(before + linked_records(store@, listed.take(i as int))->Ok_0.push(*record)
                    =~= (before + linked_records(store@, listed.take(i as int))->Ok_0).push(
                    *record,
                ));
            },
            None => {},
        }
        i += 1;
    }
    assert(listed.take(i as int) =~= listed);
    Ok(())
}

/// The records that a list of edges points to.
pub fn get_linked_records<'a>(store: &'a ContentStore, edges: &Vec<&'a Record>) -> (found: Result<
    Vec<&'a Record>,
    ValidationError,
>)
    ensures
        is_list_or_failure(found, linked_records(store@, records_of(edges@))),
{
    let mut found: Vec<&Record> = Vec::new();
    assert(records_of(found@) =~= Seq::<Record>::empty());
    extend_with_linked(store, edges, &mut found)?;
    proof {
        let linked = linked_records(store@, records_of(edges@))->Ok_0;
        assert(Seq::<Record>::empty() + linked =~= linked);
    }
    Ok(found)
}

/// Every revision of the entry whose first record is `original`: the
/// first record, then the records that the update edges point to, in the
/// order in which the edges came to be known. That is not the order of time.
/// It is a failure for the first record not to be in the store.
pub open spec fn spec_all_revisions(
    records: Seq<Record>,
    original: RevisionId,
    link_type: LinkTypes,
) -> Result<Seq<Record>, ValidationError> {
    match fetch(records, original) {
        Err(e) => Err(e),
        Ok(first) => match linked_records(
            records,
            links(records, LinkableHash::Action(original), link_type),
        ) {
            Err(e) => Err(e),
            Ok(later) => Ok(seq![first] + later),
        },
    }
}

/// Every revision of an entry. The first record is always there and always
/// first.
pub fn get_all_revisions<'a>(
    store: &'a ContentStore,
    original: &RevisionId,
    link_type: LinkTypes,
) -> (found: Result<Vec<&'a Record>, ValidationError>)
    ensures
        is_list_or_failure(found, spec_all_revisions(store@, *original, link_type)),
        found matches Ok(list) ==> list@.len() >= 1 && lookup(store@, *original) == Some(
            *list@[0],
        ),
{
    let first = store.must_get_valid_record(original)?;
    let edges = store.get_links(&LinkableHash::Action(*original), link_type);
    let mut found: Vec<&Record> = Vec::new();
    found.push(first);
    assert(records_of(found@) =~= seq![*first]);
    extend_with_linked(store, &edges, &mut found)?;
    proof {
        let later = linked_records(store@, records_of(edges@))->Ok_0;
        assert(records_of(found@) == seq![*first] + later);
        assert(records_of(found@).len() == found@.len());
        assert(records_of(found@)[0] == *first);
        assert(*found@[0] == records_of(found@)[0]);
    }
    Ok(found)
}

/// The records that mark the record `original` as removed; nothing, where
/// the record is not in the store.
pub open spec fn spec_all_deletes(records: Seq<Record>, original: RevisionId) -> Option<
    Seq<Record>,
> {
    match lookup(records, original) {
        Some(_) => Some(deletes_of(records, original)),
        None => None,
    }
}

/// The records that mark a record as removed.
pub fn get_all_deletes<'a>(store: &'a ContentStore, original: &RevisionId) -> (found: Option<
    Vec<&'a Record>,
>)
    ensures
        is_list(found, spec_all_deletes(store@, *original)),
{
    match store.get_details(original) {
        Some(details) => Some(details.deletes),
        None => None,
    }
}

/// The record that was made first, by the time that the records declare. Of
/// several records made at the same time, it is the one that came to be known
/// first.
pub open spec fn oldest(list: Seq<Record>) -> Option<Record>
    decreases list.len(),
{
    if list.len() == 0 {
        None
    } else {
        match oldest(list.drop_last()) {
            Some(best) => if made_after(best, list.last()) {
                Some(list.last())
            } else {
                Some(best)
            },
            None => Some(list.last()),
        }
    }
}

/// The oldest record is one of the records, and none was made before it.
pub proof fn lemma_oldest_is_oldest(list: Seq<Record>)
    requires
        list.len() > 0,
    ensures
        oldest(list) is Some,
        list.contains(oldest(list)->Some_0),
        forall|i: int|
            0 <= i < list.len() ==> oldest(list)->Some_0.action.spec_timestamp().0
                <= list[i].action.spec_timestamp().0,
    decreases list.len(),
{
    let rest = list.drop_last();
    if rest.len() > 0 {
        lemma_oldest_is_oldest(rest);
        let best = oldest(rest)->Some_0;
        let i = choose|i: int| 0 <= i < rest.len() && rest[i] == best;
        assert(list[i] == best);
        assert forall|i: int| 0 <= i < list.len() implies oldest(
            list,
        )->Some_0.action.spec_timestamp().0 <= list[i].action.spec_timestamp().0 by {
            if i < rest.len() {
                assert(rest[i] == list[i]);
            }
        }
    }
    assert(list[list.len() - 1] == list.last());
}

proof fn lemma_oldest_step(list: Seq<Record>, i: int)
    requires
        0 <= i < list.len(),
    ensures
        oldest(list.take(i + 1)) == match oldest(list.take(i)) {
            Some(best) => if list[i].action.spec_timestamp().0 < best.action.spec_timestamp().0 {
                Some(list[i])
            } else {
                Some(best)
            },
            None => Some(list[i]),
        },
{
    assert(list.take(i + 1).drop_last() =~= list.take(i));
    assert(list.take(i + 1).last() == list[i]);
}

/// The oldest of the records that mark the record `original` as removed;
/// nothing, where the record is not in the store or nothing marks it.
pub open spec fn spec_oldest_delete(records: Seq<Record>, original: RevisionId) -> Option<Record> {
    match spec_all_deletes(records, original) {
        Some(deletes) => oldest(deletes),
        None => None,
    }
}

/// The oldest of the records that mark a record as removed.
pub fn get_oldest_delete<'a>(store: &'a ContentStore, original: &RevisionId) -> (found: Option<
    &'a Record,
>)
    ensures
        is_record(found, spec_oldest_delete(store@, *original)),
{
    let deletes = match get_all_deletes(store, original) {
        Some(deletes) => deletes,
        None => {
            return None;
        },
    };
    if deletes.len() == 0 {
        assert(records_of(deletes@).len() == 0);
        return None;
    }
    let mut best: &Record = deletes[0];
    proof {
        lemma_oldest_step(records_of(deletes@), 0);
        assert(records_of(deletes@).take(0).len() == 0);
    }
    let mut i: usize = 1;
    while i < deletes.len()
        invariant
            1 <= i <= deletes@.len(),
            oldest(records_of(deletes@).take(i as int)) == Some(*best),
        decreases deletes@.len() - i,
    {
        proof {
            lemma_oldest_step(records_of(deletes@), i as int);
        }
        let delete: &Record = deletes[i];
        if delete.timestamp().0 < best.timestamp().0 {
            best = delete;
        }
        i += 1;
    }
    assert(records_of(deletes@).take(i as int) =~= records_of(deletes@));
    Some(best)
}

/// The edges of the kind `link_type` that start at `base` and that
/// something marks as removed, in the order in which they came to be known.
pub open spec fn deleted_links(
    records: Seq<Record>,
    base: LinkableHash,
    link_type: LinkTypes,
) -> Seq<Record> {
    all_links(records, base, link_type).filter(
        |edge: Record| link_deletes_of(records, edge.action_address).len() > 0,
    )
}

/// Whether `found` lists the removed edges of the kind `link_type` that
/// start at `base`, in their order, each with the records that mark it as
/// removed.
pub open spec fn is_deleted_links(
    found: Seq<LinkDetails>,
    records: Seq<Record>,
    base: LinkableHash,
    link_type: LinkTypes,
) -> bool {
    &&& found.len() == deleted_links(records, base, link_type).len()
    &&& forall|i: int|
        0 <= i < found.len() ==> {
            &&& *(#[trigger] found[i]).create == deleted_links(records, base, link_type)[i]
            &&& records_of(found[i].deletes@) == link_deletes_of(
                records,
                found[i].create.action_address,
            )
            &&& found[i].deletes@.len() > 0
        }
}

/// The removed edges of a kind that start at `base`, each with the records
/// that mark it as removed.
pub fn get_deleted_links<'a>(
    store: &'a ContentStore,
    base: &LinkableHash,
    link_type: LinkTypes,
) -> (found: Vec<LinkDetails<'a>>)
    ensures
        is_deleted_links(found@, store@, *base, link_type),
{
    let edges = store.get_all_links(base, link_type);
    let ghost all = records_of(edges@);
    let ghost pred = |edge: Record| link_deletes_of(store@, edge.action_address).len() > 0;
    let mut found: Vec<LinkDetails<'a>> = Vec::new();
    proof {
        lemma_filter_none(all, pred);
    }
    let mut i: usize = 0;
    while i < edges.len()
        invariant
            i <= edges@.len(),
            all == records_of(edges@),
            pred == |edge: Record| link_deletes_of(store@, edge.action_address).len() > 0,
            found@.len() == all.take(i as int).filter(pred).len(),
            forall|k: int|
                0 <= k < found@.len() ==> {
                    &&& *(#[trigger] found@[k]).create == all.take(i as int).filter(pred)[k]
                    &&& records_of(found@[k].deletes@) == link_deletes_of(
                        store@,
                        found@[k].create.action_address,
                    )
                    &&& found@[k].deletes@.len() > 0
                },
        decreases edges@.len() - i,
    {
        let edge: &Record = edges[i];
        let deletes = store.get_link_deletes(&edge.action_address);
        assert(deletes@.len() == records_of(deletes@).len());
        proof {
            lemma_filter_step(all, pred, i as int);
        }
        if deletes.len() > 0 {
            found.push(LinkDetails { create: edge, deletes });
        }
        i += 1;
    }
    assert(all.take(i as int) =~= all);
    found
}

/// The identities of the edges among `edges` that point to the revision
/// `target`, in the order of the edges.
pub open spec fn links_pointing_to(edges: Seq<Record>, target: RevisionId) -> Seq<RevisionId> {
    edges.filter(
        |edge: Record| edge.spec_link_target() == Some(LinkableHash::Action(target)),
    ).map_values(|edge: Record| edge.action_address)
}

/// The identities of the edges of a kind that start at `base`, that point
/// to the revision `target`, and that nothing marks as removed yet: the
/// edges that go when `target` is removed.
pub fn get_links_pointing_to(
    store: &ContentStore,
    base: &LinkableHash,
    link_type: LinkTypes,
    target: &RevisionId,
) -> (found: Vec<RevisionId>)
    ensures
        found@ == links_pointing_to(links(store@, *base, link_type), *target),
{
    let edges = store.get_links(base, link_type);
    let ghost all = records_of(edges@);
    let ghost pred = |edge: Record| edge.spec_link_target() == Some(LinkableHash::Action(*target));
    let ghost address = |edge: Record| edge.action_address;
    let mut found: Vec<RevisionId> = Vec::new();
    proof {
        lemma_filter_none(all, pred);
        assert(found@ =~= all.take(0).filter(pred).map_values(address));
    }
    let mut i: usize = 0;
    while i < edges.len()
        invariant
            i <= edges@.len(),
            all == records_of(edges@),
            pred == |edge: Record| edge.spec_link_target() == Some(LinkableHash::Action(*target)),
            address == |edge: Record| edge.action_address,
            found@ == all.take(i as int).filter(pred).map_values(address),
        decreases edges@.len() - i,
    {
        let edge: &Record = edges[i];
        let points = match edge.link_target() {
            Some(LinkableHash::Action(id)) => id == *target,
            _ => false,
        };
        proof {
            lemma_filter_step(all, pred, i as int);
        }
        if points {
            let ghost sofar = found@;
            found.push(edge.action_address);
            assert(found@ =~= all.take(i as int + 1).filter(pred).map_values(address));
        }
        i += 1;
    }
    assert(all.take(i as int) =~= all);
    found
}

/// The identities of the edges among `edges` that point to the revision
/// `target`, where every edge points to a revision: it is a failure for an
/// edge to point to anything else, and the first such edge gives the failure.
pub open spec fn links_pointing_to_strictly(edges: Seq<Record>, target: RevisionId) -> Result<
    Seq<RevisionId>,
    ValidationError,
>
    decreases edges.len(),
{
    if edges.len() == 0 {
        Ok(Seq::empty())
    } else {
        match links_pointing_to_strictly(edges.drop_last(), target) {
            Err(e) => Err(e),
            Ok(before) => match edges.last().spec_link_target_action_hash() {
                Err(e) => Err(e),
                Ok(id) => if id == target {
                    Ok(before.push(edges.last().action_address))
                } else {
                    Ok(before)
                },
            },
        }
    }
}

proof fn lemma_strict_step(edges: Seq<Record>, target: RevisionId, i: int)
    requires
        0 <= i < edges.len(),
    ensures
        links_pointing_to_strictly(edges.take(i + 1), target) == match links_pointing_to_strictly(
            edges.take(i),
            target,
        ) {
            Err(e) => Err(e),
            Ok(before) => match edges[i].spec_link_target_action_hash() {
                Err(e) => Err(e),
                Ok(id) => if id == target {
                    Ok(before.push(edges[i].action_address))
                } else {
                    Ok(before)
                },
            },
        },
{
    assert(edges.take(i + 1).drop_last() =~= edges.take(i));
    assert(edges.take(i + 1).last() == edges[i]);
}

proof fn lemma_strict_failure(edges: Seq<Record>, target: RevisionId, i: int)
    requires
        0 <= i <= edges.len(),
        links_pointing_to_strictly(edges.take(i), target) is Err,
    ensures
        links_pointing_to_strictly(edges, target) == links_pointing_to_strictly(
            edges.take(i),
            target,
        ),
    decreases edges.len() - i,
{
    if i < edges.len() {
        lemma_strict_step(edges, target, i);
        lemma_strict_failure(edges, target, i + 1);
    } else {
        assert(edges.take(i) =~= edges);
    }
}

/// The identities of the edges of a kind that start at `base`, that point
/// to the revision `target`, and that nothing marks as removed yet, where
/// every such edge has to point to a revision.
pub fn get_links_pointing_to_strictly(
    store: &ContentStore,
    base: &LinkableHash,
    link_type: LinkTypes,
    target: &RevisionId,
) -> (found: Result<Vec<RevisionId>, ValidationError>)
    ensures
        is_ids_or_failure(
            found,
            links_pointing_to_strictly(links(store@, *base, link_type), *target),
        ),
{
    let edges = store.get_links(base, link_type);
    let ghost all = records_of(edges@);
    let mut found: Vec<RevisionId> = Vec::new();
    assert(all.take(0) =~= Seq::<Record>::empty());
    let mut i: usize = 0;
    while i < edges.len()
        invariant
            i <= edges@.len(),
            all == records_of(edges@),
            all == links(store@, *base, link_type),
            links_pointing_to_strictly(all.take(i as int), *target) == Ok::<
                Seq<RevisionId>,
                ValidationError,
            >(found@),
        decreases edges@.len() - i,
    {
        proof {
            lemma_strict_step(all, *target, i as int);
        }
        let edge: &Record = edges[i];
        match edge.link_target_action_hash() {
            Ok(id) => {
                if id == *target {
                    found.push(edge.action_address);
                }
            },
            Err(e) => {
                proof {
                    lemma_strict_failure(all, *target, i as int + 1);
                }
                return Err(e);
            },
        }
        i += 1;
    }
    assert(all.take(i as int) =~= all);
    Ok(found)
}

} // verus!
