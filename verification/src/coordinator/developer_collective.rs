//! Reading collectives, and planning what to write for them.

use crate::coordinator::revisions::{
    get_all_deletes, get_all_revisions, get_latest, get_linked_records, get_links_pointing_to,
    get_oldest_delete, get_original, linked_records, links_pointing_to, spec_all_deletes,
    spec_all_revisions, spec_latest, spec_oldest_delete,
};
use crate::coordinator::CreateLinkInput;
use crate::hash::{LinkableHash, Principal, RevisionId};
use crate::integrity::developer_collective::DeveloperCollective;
use crate::integrity::LinkTypes;
use crate::outcome::{GuestError, ValidationError};
use crate::record::Record;
use crate::store::{
    is_list, is_list_or_failure, is_record, is_record_or_failure, links, lookup, records_of,
    Anchors, ContentStore,
};
use vstd::prelude::*;

verus! {

/// The edges that go with a new collective: one from the anchor of all
/// collectives to the collective, and one from the collective to the
/// principal that creates it.
pub fn create_developer_collective(
    anchors: &Anchors,
    developer_collective_hash: RevisionId,
    me: Principal,
) -> (plan: Vec<CreateLinkInput>)
    ensures
        plan@.len() == 2,
        plan@[0].connects(
            LinkableHash::Entry(anchors.all_developer_collectives),
            LinkableHash::Action(developer_collective_hash),
            LinkTypes::AllDeveloperCollectives,
            Seq::empty(),
        ),
        plan@[1].connects(
            LinkableHash::Action(developer_collective_hash),
            LinkableHash::from_agent(me),
            LinkTypes::DeveloperCollectiveToOwner,
            Seq::empty(),
        ),
{
    let mut plan: Vec<CreateLinkInput> = Vec::new();
    plan.push(
        CreateLinkInput {
            base_address: LinkableHash::from_entry_hash(anchors.all_developer_collectives),
            target_address: LinkableHash::from_action_hash(developer_collective_hash),
            link_type: LinkTypes::AllDeveloperCollectives,
            tag: Vec::new(),
        },
    );
    plan.push(
        CreateLinkInput {
            base_address: LinkableHash::from_action_hash(developer_collective_hash),
            target_address: LinkableHash::from_agent_pub_key(me),
            link_type: LinkTypes::DeveloperCollectiveToOwner,
            tag: Vec::new(),
        },
    );
    plan
}

/// The latest revision of a collective.
pub fn get_latest_developer_collective<'a>(
    store: &'a ContentStore,
    original_developer_collective_hash: &RevisionId,
) -> (latest: Result<Option<&'a Record>, ValidationError>)
    ensures
        is_record_or_failure(
            latest,
            spec_latest(
                store@,
                *original_developer_collective_hash,
                LinkTypes::DeveloperCollectiveUpdates,
            ),
        ),
{
    get_latest(store, original_developer_collective_hash, LinkTypes::DeveloperCollectiveUpdates)
}

/// The first record of a collective.
pub fn get_original_developer_collective<'a>(
    store: &'a ContentStore,
    original_developer_collective_hash: &RevisionId,
) -> (found: Option<&'a Record>)
    ensures
        is_record(found, lookup(store@, *original_developer_collective_hash)),
{
    get_original(store, original_developer_collective_hash)
}

/// Every revision of a collective, the first record first.
pub fn get_all_revisions_for_developer_collective<'a>(
    store: &'a ContentStore,
    original_developer_collective_hash: &RevisionId,
) -> (found: Result<Vec<&'a Record>, ValidationError>)
    ensures
        is_list_or_failure(
            found,
            spec_all_revisions(
                store@,
                *original_developer_collective_hash,
                LinkTypes::DeveloperCollectiveUpdates,
            ),
        ),
        found matches Ok(list) ==> list@.len() >= 1 && lookup(
            store@,
            *original_developer_collective_hash,
        ) == Some(*list@[0]),
{
    get_all_revisions(
        store,
        original_developer_collective_hash,
        LinkTypes::DeveloperCollectiveUpdates,
    )
}

/// An update of a collective: the first record of the collective, the
/// record that the update follows, and what the update says.
#[derive(Clone, Debug, PartialEq, Eq)]
pub struct UpdateDeveloperCollectiveInput {
    pub original_developer_collective_hash: RevisionId,
    pub previous_developer_collective_hash: RevisionId,
    pub updated_developer_collective: DeveloperCollective,
}

/// The edge that goes with an update of a collective: from the first record
/// of the collective to the new one.
pub fn update_developer_collective(
    original_developer_collective_hash: RevisionId,
    updated_developer_collective_hash: RevisionId,
) -> (plan: CreateLinkInput)
    ensures
        plan.connects(
            LinkableHash::Action(original_developer_collective_hash),
            LinkableHash::Action(updated_developer_collective_hash),
            LinkTypes::DeveloperCollectiveUpdates,
            Seq::empty(),
        ),
{
    CreateLinkInput {
        base_address: LinkableHash::from_action_hash(original_developer_collective_hash),
        target_address: LinkableHash::from_action_hash(updated_developer_collective_hash),
        link_type: LinkTypes::DeveloperCollectiveUpdates,
        tag: Vec::new(),
    }
}

/// The edges that start at the anchor of all collectives and point to the
/// collective `original`: first those of the list of all collectives, then
/// those to owners.
pub open spec fn links_of_deleted_collective(
    records: Seq<Record>,
    anchors: Anchors,
    original: RevisionId,
) -> Seq<RevisionId> {
    links_pointing_to(
        links(
            records,
            LinkableHash::Entry(anchors.all_developer_collectives),
            LinkTypes::AllDeveloperCollectives,
        ),
        original,
    ) + links_pointing_to(
        links(
            records,
            LinkableHash::Entry(anchors.all_developer_collectives),
            LinkTypes::DeveloperCollectiveToOwner,
        ),
        original,
    )
}

/// The edges that go when a collective is removed. It is a failure for the
/// record of the collective not to be in the store.
pub fn delete_developer_collective(
    store: &ContentStore,
    original_developer_collective_hash: &RevisionId,
) -> (plan: Result<Vec<RevisionId>, ValidationError>)
    ensures
        match lookup(store@, *original_developer_collective_hash) {
            Some(_) => plan is Ok && plan->Ok_0@ == links_of_deleted_collective(
                store@,
                store.spec_anchors(),
                *original_developer_collective_hash,
            ),
            None => plan == Err::<Vec<RevisionId>, ValidationError>(
                ValidationError::Guest(GuestError::NotFound),
            ),
        },
{
    if get_original(store, original_developer_collective_hash).is_none() {
        return Err(ValidationError::Guest(GuestError::NotFound));
    }
    let anchor = LinkableHash::from_entry_hash(store.anchors().all_developer_collectives);
    let mut plan = get_links_pointing_to(
        store,
        &anchor,
        LinkTypes::AllDeveloperCollectives,
        original_developer_collective_hash,
    );
    let mut owner_links = get_links_pointing_to(
        store,
        &anchor,
        LinkTypes::DeveloperCollectiveToOwner,
        original_developer_collective_hash,
    );
    plan.append(&mut owner_links);
    Ok(plan)
}

/// The records that mark a collective as removed.
pub fn get_all_deletes_for_developer_collective<'a>(
    store: &'a ContentStore,
    original_developer_collective_hash: &RevisionId,
) -> (found: Option<Vec<&'a Record>>)
    ensures
        is_list(found, spec_all_deletes(store@, *original_developer_collective_hash)),
{
    get_all_deletes(store, original_developer_collective_hash)
}

/// The oldest of the records that mark a collective as removed.
pub fn get_oldest_delete_for_developer_collective<'a>(
    store: &'a ContentStore,
    original_developer_collective_hash: &RevisionId,
) -> (found: Option<&'a Record>)
    ensures
        is_record(found, spec_oldest_delete(store@, *original_developer_collective_hash)),
{
    get_oldest_delete(store, original_developer_collective_hash)
}

/// The owner edges that start at the acting principal `me`.
pub fn get_my_developer_collective_links<'a>(store: &'a ContentStore, me: Principal) -> (found: Vec<
    &'a Record,
>)
    ensures
        records_of(found@) == links(
            store@,
            LinkableHash::from_agent(me),
            LinkTypes::DeveloperCollectiveToOwner,
        ),
{
    store.get_links(&LinkableHash::from_agent_pub_key(me), LinkTypes::DeveloperCollectiveToOwner)
}

/// The first records of the collectives that the owner edges from the acting
/// principal `me` point to.
pub fn get_my_original_developer_collectives<'a>(store: &'a ContentStore, me: Principal) -> (found:
    Result<Vec<&'a Record>, ValidationError>)
    ensures
        is_list_or_failure(
            found,
            linked_records(
                store@,
                links(
                    store@,
                    LinkableHash::from_agent(me),
                    LinkTypes::DeveloperCollectiveToOwner,
                ),
            ),
        ),
{
    let edges = get_my_developer_collective_links(store, me);
    get_linked_records(store, &edges)
}

} // verus!
