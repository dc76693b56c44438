//! The content store: every record that is known, each under its identity.
//!
//! Nothing is ever taken out of the store or changed in it. A removal is a
//! record of its own; what is removed stays where it is and is only left out
//! of what the reading functions show.

use crate::hash::{EntryId, LinkableHash, RevisionId};
use crate::integrity::LinkTypes;
use crate::outcome::{GuestError, ValidationError};
use crate::record::{Action, Record};
use vstd::prelude::*;

verus! {

/// The places from which the lists of all agents, all curators and all
/// collectives hang.
#[derive(Clone, Copy, Debug, PartialEq, Eq)]
pub struct Anchors {
    pub all_agents: EntryId,
    pub all_curators: EntryId,
    pub all_developer_collectives: EntryId,
}

/// Whether no two records share an identity.
pub open spec fn distinct_addresses(records: Seq<Record>) -> bool {
    forall|i: int, j: int|
        0 <= i < j < records.len() ==> records[i].action_address != records[j].action_address
}

/// Whether a record with the identity `id` is among `records`.
pub open spec fn holds(records: Seq<Record>, id: RevisionId) -> bool {
    exists|i: int| 0 <= i < records.len() && #[trigger] records[i].action_address == id
}

/// The record with the identity `id`, if there is one.
pub open spec fn lookup(records: Seq<Record>, id: RevisionId) -> Option<Record> {
    if holds(records, id) {
        Some(
            records[choose|i: int|
                0 <= i < records.len() && #[trigger] records[i].action_address == id],
        )
    } else {
        None
    }
}

/// The record with the identity `id`, or the failure that it is not there.
pub open spec fn fetch(records: Seq<Record>, id: RevisionId) -> Result<Record, ValidationError> {
    match lookup(records, id) {
        Some(record) => Ok(record),
        None => Err(ValidationError::DependencyMissing(id)),
    }
}

/// The record that an end of an edge names: a failure where the end names
/// no revision, or where the record is not there.
pub open spec fn fetch_linked(records: Seq<Record>, address: LinkableHash) -> Result<
    Record,
    ValidationError,
> {
    match address.spec_into_action_hash() {
        None => Err(ValidationError::Guest(GuestError::NoActionHash)),
        Some(id) => fetch(records, id),
    }
}

/// The records that mark the record `id` as removed, in the order in which
/// they came to be known.
pub open spec fn deletes_of(records: Seq<Record>, id: RevisionId) -> Seq<Record> {
    records.filter(|r: Record| r.spec_deletes(id))
}

/// The record with the identity `id`, if there is one and nothing marks it
/// as removed.
pub open spec fn live(records: Seq<Record>, id: RevisionId) -> Option<Record> {
    if deletes_of(records, id).len() > 0 {
        None
    } else {
        lookup(records, id)
    }
}

/// The records that mark the edge made by the record `id` as removed.
pub open spec fn link_deletes_of(records: Seq<Record>, id: RevisionId) -> Seq<Record> {
    records.filter(|r: Record| r.spec_deletes_link(id))
}

/// Every edge of the kind `link_type` that starts at `base`, removed or
/// not, in the order in which the edges came to be known.
pub open spec fn all_links(records: Seq<Record>, base: LinkableHash, link_type: LinkTypes) -> Seq<
    Record,
> {
    records.filter(|r: Record| r.spec_is_link(base, link_type))
}

/// The edges of the kind `link_type` that start at `base` and that nothing
/// marks as removed, in the order in which they came to be known.
pub open spec fn links(records: Seq<Record>, base: LinkableHash, link_type: LinkTypes) -> Seq<
    Record,
> {
    records.filter(
        |r: Record|
            r.spec_is_link(base, link_type) && link_deletes_of(records, r.action_address).len()
                == 0,
    )
}

/// The records behind a list of references.
pub open spec fn records_of(refs: Seq<&Record>) -> Seq<Record> {
    refs.map_values(|r: &Record| *r)
}

/// Whether a reference that was found, or none, is what `expected` says.
pub open spec fn is_record(found: Option<&Record>, expected: Option<Record>) -> bool {
    match found {
        Some(record) => expected == Some(*record),
        None => expected is None,
    }
}

/// Whether a list of references that was found, or none, is what `expected`
/// says.
pub open spec fn is_list(found: Option<Vec<&Record>>, expected: Option<Seq<Record>>) -> bool {
    match found {
        Some(list) => expected == Some(records_of(list@)),
        None => expected is None,
    }
}

/// Whether a reference that was found, or none, or a failure, is what
/// `expected` says.
pub open spec fn is_record_or_failure(
    found: Result<Option<&Record>, ValidationError>,
    expected: Result<Option<Record>, ValidationError>,
) -> bool {
    match found {
        Ok(Some(record)) => expected == Ok::<Option<Record>, ValidationError>(Some(*record)),
        Ok(None) => expected == Ok::<Option<Record>, ValidationError>(None),
        Err(e) => expected == Err::<Option<Record>, ValidationError>(e),
    }
}

/// Whether a list of references that was found, or a failure, is what
/// `expected` says.
pub open spec fn is_list_or_failure(
    found: Result<Vec<&Record>, ValidationError>,
    expected: Result<Seq<Record>, ValidationError>,
) -> bool {
    match found {
        Ok(list) => expected == Ok::<Seq<Record>, ValidationError>(records_of(list@)),
        Err(e) => expected == Err::<Seq<Record>, ValidationError>(e),
    }
}

/// Whether a list of identities that was found, or a failure, is what
/// `expected` says.
pub open spec fn is_ids_or_failure(
    found: Result<Vec<RevisionId>, ValidationError>,
    expected: Result<Seq<RevisionId>, ValidationError>,
) -> bool {
    match found {
        Ok(list) => expected == Ok::<Seq<RevisionId>, ValidationError>(list@),
        Err(e) => expected == Err::<Seq<RevisionId>, ValidationError>(e),
    }
}

/// How a filter goes on by one element.
pub proof fn lemma_filter_step<A>(s: Seq<A>, pred: spec_fn(A) -> bool, i: int)
    requires
        0 <= i < s.len(),
    ensures
        s.take(i + 1).filter(pred) == if pred(s[i]) {
            s.take(i).filter(pred).push(s[i])
        } else {
            s.take(i).filter(pred)
        },
{
    reveal(Seq::filter);
    assert(s.take(i + 1).drop_last() =~= s.take(i));
    assert(s.take(i + 1).last() == s[i]);
}

/// A filter of nothing is nothing.
pub proof fn lemma_filter_none<A>(s: Seq<A>, pred: spec_fn(A) -> bool)
    ensures
        s.take(0).filter(pred) == Seq::<A>::empty(),
{
    reveal(Seq::filter);
    assert(s.take(0) =~= Seq::<A>::empty());
}

/// What is known of one record: the record, and the records that mark it as
/// removed.
pub struct RecordDetails<'a> {
    pub record: &'a Record,
    pub deletes: Vec<&'a Record>,
}

/// What is known of one edge: the record that made it, and the records that
/// mark it as removed.
pub struct LinkDetails<'a> {
    pub create: &'a Record,
    pub deletes: Vec<&'a Record>,
}

/// Whether `found` lists `edges` in their order, each with the records that
/// mark it as removed.
pub open spec fn is_link_details(
    found: Seq<LinkDetails>,
    records: Seq<Record>,
    edges: Seq<Record>,
) -> bool {
    &&& found.len() == edges.len()
    &&& forall|i: int|
        0 <= i < found.len() ==> {
            &&& *(#[trigger] found[i]).create == edges[i]
            &&& records_of(found[i].deletes@) == link_deletes_of(
                records,
                found[i].create.action_address,
            )
        }
}

/// The store.
pub struct ContentStore {
    anchors: Anchors,
    records: Vec<Record>,
}

impl View for ContentStore {
    type V = Seq<Record>;

    closed spec fn view(&self) -> Seq<Record> {
        self.records@
    }
}

impl ContentStore {
    #[verifier::type_invariant]
    closed spec fn well_formed(self) -> bool {
        distinct_addresses(self.records@)
    }

    /// The places from which the lists of all agents, all curators and all
    /// collectives hang.
    pub closed spec fn spec_anchors(self) -> Anchors {
        self.anchors
    }

    /// A store that holds nothing yet.
    pub fn new(anchors: Anchors) -> (store: ContentStore)
        ensures
            store@ == Seq::<Record>::empty(),
            store.spec_anchors() == anchors,
    {
        ContentStore { anchors, records: Vec::new() }
    }

    /// The places from which the lists of all agents, all curators and all
    /// collectives hang.
    pub fn anchors(&self) -> (anchors: Anchors)
        ensures
            anchors == self.spec_anchors(),
    {
        self.anchors
    }

    /// No two records of a store share an identity. Nothing is done when
    /// this runs: the call is there for what it states.
    pub fn distinct(&self)
        ensures
            distinct_addresses(self@),
    {
        proof {
            use_type_invariant(self);
        }
    }

    /// The number of records.
    pub fn len(&self) -> (n: usize)
        ensures
            n == self@.len(),
    {
        self.records.len()
    }

    /// The record at a position, in the order in which the records came to
    /// be known.
    pub fn record_at(&self, i: usize) -> (record: &Record)
        requires
            i < self@.len(),
        ensures
            *record == self@[i as int],
    {
        &self.records[i]
    }

    fn position(&self, id: &RevisionId) -> (found: Option<usize>)
        ensures
            match found {
                Some(i) => i < self@.len() && lookup(self@, *id) == Some(self@[i as int]),
                None => lookup(self@, *id) is None,
            },
    {
        proof {
            use_type_invariant(self);
        }
        let mut i: usize = 0;
        while i < self.records.len()
            invariant
                i <= self.records@.len(),
                distinct_addresses(self.records@),
                forall|j: int| 0 <= j < i ==> self.records@[j].action_address != *id,
            decreases self.records@.len() - i,
        {
            if self.records[i].action_address == *id {
                proof {
                    let records = self.records@;
                    assert(records[i as int].action_address == *id);
                    let j = choose|j: int|
                        0 <= j < records.len() && #[trigger] records[j].action_address == *id;
                    assert(j == i);
                }
                return Some(i);
            }
            i += 1;
        }
        None
    }

    /// Takes a record into the store, unless a record with the same identity
    /// is there already: what the store holds is never replaced.
    pub fn insert(&mut self, record: Record) -> (added: bool)
        ensures
            added == !holds(old(self)@, record.action_address),
            added ==> final(self)@ == old(self)@.push(record),
            !added ==> final(self)@ == old(self)@,
            final(self).spec_anchors() == old(self).spec_anchors(),
            distinct_addresses(final(self)@),
    {
        proof {
            use_type_invariant(&*self);
        }
        match self.position(&record.action_address) {
            Some(_) => false,
            None => {
                let anchors = self.anchors;
                let mut before = ContentStore { anchors, records: Vec::new() };
                core::mem::swap(self, &mut before);
                let mut records = before.records;
                records.push(record);
                *self = ContentStore { anchors, records };
                true
            },
        }
    }

    /// The record with the identity `id`, whether or not something marks it
    /// as removed. That there is none is a failure that a later run can mend.
    pub fn must_get_valid_record(&self, id: &RevisionId) -> (found: Result<
        &Record,
        ValidationError,
    >)
        ensures
            match found {
                Ok(record) => fetch(self@, *id) == Ok::<Record, ValidationError>(*record),
                Err(e) => fetch(self@, *id) == Err::<Record, ValidationError>(e),
            },
    {
        match self.position(id) {
            Some(i) => Ok(&self.records[i]),
            None => Err(ValidationError::DependencyMissing(*id)),
        }
    }

    /// The record that an end of an edge names.
    pub fn must_get_linked_record(&self, address: LinkableHash) -> (found: Result<
        &Record,
        ValidationError,
    >)
        ensures
            match found {
                Ok(record) => fetch_linked(self@, address) == Ok::<Record, ValidationError>(
                    *record,
                ),
                Err(e) => fetch_linked(self@, address) == Err::<Record, ValidationError>(e),
            },
    {
        match address.into_action_hash() {
            Some(id) => self.must_get_valid_record(&id),
            None => Err(ValidationError::Guest(GuestError::NoActionHash)),
        }
    }

    /// The records that mark the record `id` as removed.
    pub fn get_deletes(&self, id: &RevisionId) -> (deletes: Vec<&Record>)
        ensures
            records_of(deletes@) == deletes_of(self@, *id),
    {
        let mut deletes: Vec<&Record> = Vec::new();
        let ghost pred = |r: Record| r.spec_deletes(*id);
        proof {
            lemma_filter_none(self@, pred);
            assert(records_of(deletes@) =~= self@.take(0).filter(pred));
        }
        let mut i: usize = 0;
        while i < self.records.len()
            invariant
                i <= self.records@.len(),
                pred == |r: Record| r.spec_deletes(*id),
                records_of(deletes@) == self.records@.take(i as int).filter(pred),
            decreases self.records@.len() - i,
        {
            let record = &self.records[i];
            let marks = match &record.action {
                Action::Delete(delete) => delete.deletes_address == *id,
                _ => false,
            };
            proof {
                lemma_filter_step(self.records@, pred, i as int);
            }
            if marks {
                let ghost before = deletes@;
                deletes.push(record);
                assert(records_of(deletes@) =~= records_of(before).push(*record));
            }
            i += 1;
        }
        assert(self.records@.take(i as int) =~= self.records@);
        deletes
    }

    /// The record with the identity `id`, if there is one and nothing marks
    /// it as removed.
    pub fn get(&self, id: &RevisionId) -> (found: Option<&Record>)
        ensures
            match found {
                Some(record) => live(self@, *id) == Some(*record),
                None => live(self@, *id) is None,
            },
    {
        let deletes = self.get_deletes(id);
        assert(deletes@.len() == records_of(deletes@).len());
        if deletes.len() > 0 {
            return None;
        }
        match self.position(id) {
            Some(i) => Some(&self.records[i]),
            None => None,
        }
    }

    /// The record with the identity `id` and the records that mark it as
    /// removed, if the record is there.
    pub fn get_details(&self, id: &RevisionId) -> (found: Option<RecordDetails<'_>>)
        ensures
            match found {
                Some(details) => lookup(self@, *id) == Some(*details.record) && records_of(
                    details.deletes@,
                ) == deletes_of(self@, *id),
                None => lookup(self@, *id) is None,
            },
    {
        match self.position(id) {
            Some(i) => {
                let deletes = self.get_deletes(id);
                Some(RecordDetails { record: &self.records[i], deletes })
            },
            None => None,
        }
    }

    /// The records that mark the edge made by the record `id` as removed.
    pub fn get_link_deletes(&self, id: &RevisionId) -> (deletes: Vec<&Record>)
        ensures
            records_of(deletes@) == link_deletes_of(self@, *id),
    {
        let mut deletes: Vec<&Record> = Vec::new();
        let ghost pred = |r: Record| r.spec_deletes_link(*id);
        proof {
            lemma_filter_none(self@, pred);
            assert(records_of(deletes@) =~= self@.take(0).filter(pred));
        }
        let mut i: usize = 0;
        while i < self.records.len()
            invariant
                i <= self.records@.len(),
                pred == |r: Record| r.spec_deletes_link(*id),
                records_of(deletes@) == self.records@.take(i as int).filter(pred),
            decreases self.records@.len() - i,
        {
            let record = &self.records[i];
            let marks = match &record.action {
                Action::DeleteLink(delete) => delete.link_add_address == *id,
                _ => false,
            };
            proof {
                lemma_filter_step(self.records@, pred, i as int);
            }
            if marks {
                let ghost before = deletes@;
                deletes.push(record);
                assert(records_of(deletes@) =~= records_of(before).push(*record));
            }
            i += 1;
        }
        assert(self.records@.take(i as int) =~= self.records@);
        deletes
    }

    /// The edges of the kind `link_type` that start at `base` and that
    /// nothing marks as removed, in the order in which they came to be known.
    pub fn get_links(&self, base: &LinkableHash, link_type: LinkTypes) -> (found: Vec<&Record>)
        ensures
            records_of(found@) == links(self@, *base, link_type),
    {
        let mut found: Vec<&Record> = Vec::new();
        let ghost pred = |r: Record|
            r.spec_is_link(*base, link_type) && link_deletes_of(self@, r.action_address).len() == 0;
        proof {
            lemma_filter_none(self@, pred);
            assert(records_of(found@) =~= self@.take(0).filter(pred));
        }
        let mut i: usize = 0;
        while i < self.records.len()
            invariant
                i <= self.records@.len(),
                pred == |r: Record|
                    r.spec_is_link(*base, link_type) && link_deletes_of(
                        self@,
                        r.action_address,
                    ).len() == 0,
                records_of(found@) == self.records@.take(i as int).filter(pred),
            decreases self.records@.len() - i,
        {
            let record = &self.records[i];
            let is_link = match &record.action {
                Action::CreateLink(link) => link.base_address == *base && link.link_type == Some(
                    link_type,
                ),
                _ => false,
            };
            let mut shown = false;
            if is_link {
                let deletes = self.get_link_deletes(&record.action_address);
                assert(deletes@.len() == records_of(deletes@).len());
                shown = deletes.len() == 0;
            }
            proof {
                lemma_filter_step(self.records@, pred, i as int);
            }
            if shown {
                let ghost before = found@;
                found.push(record);
                assert(records_of(found@) =~= records_of(before).push(*record));
            }
            i += 1;
        }
        assert(self.records@.take(i as int) =~= self.records@);
        found
    }

    /// Every edge of the kind `link_type` that starts at `base`, removed or
    /// not, in the order in which the edges came to be known.
    pub fn get_all_links(&self, base: &LinkableHash, link_type: LinkTypes) -> (found: Vec<&Record>)
        ensures
            records_of(found@) == all_links(self@, *base, link_type),
    {
        let mut found: Vec<&Record> = Vec::new();
        let ghost pred = |r: Record| r.spec_is_link(*base, link_type);
        proof {
            lemma_filter_none(self@, pred);
            assert(records_of(found@) =~= self@.take(0).filter(pred));
        }
        let mut i: usize = 0;
        while i < self.records.len()
            invariant
                i <= self.records@.len(),
                pred == |r: Record| r.spec_is_link(*base, link_type),
                records_of(found@) == self.records@.take(i as int).filter(pred),
            decreases self.records@.len() - i,
        {
            let record = &self.records[i];
            let is_link = match &record.action {
                Action::CreateLink(link) => link.base_address == *base && link.link_type == Some(
                    link_type,
                ),
                _ => false,
            };
            proof {
                lemma_filter_step(self.records@, pred, i as int);
            }
            if is_link {
                let ghost before = found@;
                found.push(record);
                assert(records_of(found@) =~= records_of(before).push(*record));
            }
            i += 1;
        }
        assert(self.records@.take(i as int) =~= self.records@);
        found
    }

    /// Every edge of the kind `link_type` that starts at `base`, removed or
    /// not, each with the records that mark it as removed.
    pub fn get_link_details(&self, base: &LinkableHash, link_type: LinkTypes) -> (found: Vec<
        LinkDetails<'_>,
    >)
        ensures
            is_link_details(found@, self@, all_links(self@, *base, link_type)),
    {
        let edges = self.get_all_links(base, link_type);
        let mut found: Vec<LinkDetails<'_>> = Vec::new();
        let mut i: usize = 0;
        while i < edges.len()
            invariant
                i <= edges@.len(),
                records_of(edges@) == all_links(self@, *base, link_type),
                is_link_details(found@, self@, records_of(edges@).take(i as int)),
            decreases edges@.len() - i,
        {
            let edge: &Record = edges[i];
            let deletes = self.get_link_deletes(&edge.action_address);
            found.push(LinkDetails { create: edge, deletes });
            i += 1;
        }
        assert(records_of(edges@).take(i as int) =~= records_of(edges@));
        found
    }
}

} // verus!
