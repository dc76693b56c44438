//! Which developer collectives a curator lists.

use crate::coordinator::revisions::{
    get_deleted_links, get_links_pointing_to_strictly, is_deleted_links,
    links_pointing_to_strictly,
};
use crate::coordinator::CreateLinkInput;
use crate::hash::{LinkableHash, RevisionId};
use crate::integrity::LinkTypes;
use crate::outcome::ValidationError;
use crate::record::Record;
use crate::store::{links, records_of, ContentStore, LinkDetails};
use vstd::prelude::*;

verus! {

/// A curator and a collective that it is to list.
#[derive(Clone, Copy, Debug, PartialEq, Eq)]
pub struct AddDeveloperCollectiveForCuratorInput {
    pub base_curator_hash: RevisionId,
    pub target_developer_collective_hash: RevisionId,
}

/// A curator and a collective that it is to list no longer.
#[derive(Clone, Copy, Debug, PartialEq, Eq)]
pub struct RemoveDeveloperCollectiveForCuratorInput {
    pub base_curator_hash: RevisionId,
    pub target_developer_collective_hash: RevisionId,
}

/// The edges with which a curator lists a collective: one from the curator, and
/// one back to it.
pub fn add_developer_collective_for_curator(
    input: AddDeveloperCollectiveForCuratorInput,
) -> (plan: Vec<CreateLinkInput>)
    ensures
        plan@.len() == 2,
        plan@[0].connects(
            LinkableHash::Action(input.base_curator_hash),
            LinkableHash::Action(input.target_developer_collective_hash),
            LinkTypes::CuratorToDeveloperCollectives,
            Seq::empty(),
        ),
        plan@[1].connects(
            LinkableHash::Action(input.target_developer_collective_hash),
            LinkableHash::Action(input.base_curator_hash),
            LinkTypes::DeveloperCollectiveToCurators,
            Seq::empty(),
        ),
{
    let mut plan: Vec<CreateLinkInput> = Vec::new();
    plan.push(
        CreateLinkInput {
            base_address: LinkableHash::from_action_hash(input.base_curator_hash),
            target_address: LinkableHash::from_action_hash(input.target_developer_collective_hash),
            link_type: LinkTypes::CuratorToDeveloperCollectives,
            tag: Vec::new(),
        },
    );
    plan.push(
        CreateLinkInput {
            base_address: LinkableHash::from_action_hash(input.target_developer_collective_hash),
            target_address: LinkableHash::from_action_hash(input.base_curator_hash),
            link_type: LinkTypes::DeveloperCollectiveToCurators,
            tag: Vec::new(),
        },
    );
    plan
}

/// The edges from a curator to the developer collectives that it lists.
pub fn get_developer_collectives_for_curator<'a>(
    store: &'a ContentStore,
    curator_hash: &RevisionId,
) -> (found: Vec<&'a Record>)
    ensures
        records_of(found@) == links(
            store@,
            LinkableHash::Action(*curator_hash),
            LinkTypes::CuratorToDeveloperCollectives,
        ),
{
    store.get_links(&LinkableHash::Action(*curator_hash), LinkTypes::CuratorToDeveloperCollectives)
}

/// The removed edges from a curator to developer collectives, each with the records
/// that mark it as removed.
pub fn get_deleted_developer_collectives_for_curator<'a>(
    store: &'a ContentStore,
    curator_hash: &RevisionId,
) -> (found: Vec<LinkDetails<'a>>)
    ensures
        is_deleted_links(
            found@,
            store@,
            LinkableHash::Action(*curator_hash),
            LinkTypes::CuratorToDeveloperCollectives,
        ),
{
    get_deleted_links(
        store,
        &LinkableHash::Action(*curator_hash),
        LinkTypes::CuratorToDeveloperCollectives,
    )
}

/// The edges from a collective to the curators that list it.
pub fn get_curators_for_developer_collective<'a>(
    store: &'a ContentStore,
    developer_collective_hash: &RevisionId,
) -> (found: Vec<&'a Record>)
    ensures
        records_of(found@) == links(
            store@,
            LinkableHash::Action(*developer_collective_hash),
            LinkTypes::DeveloperCollectiveToCurators,
        ),
{
    store.get_links(
        &LinkableHash::Action(*developer_collective_hash),
        LinkTypes::DeveloperCollectiveToCurators,
    )
}

/// The removed edges from a collective to curators, each with the records that
/// mark it as removed.
pub fn get_deleted_curators_for_developer_collective<'a>(
    store: &'a ContentStore,
    developer_collective_hash: &RevisionId,
) -> (found: Vec<LinkDetails<'a>>)
    ensures
        is_deleted_links(
            found@,
            store@,
            LinkableHash::Action(*developer_collective_hash),
            LinkTypes::DeveloperCollectiveToCurators,
        ),
{
    get_deleted_links(
        store,
        &LinkableHash::Action(*developer_collective_hash),
        LinkTypes::DeveloperCollectiveToCurators,
    )
}

/// The edges that go when a curator lists a collective no longer: first those
/// from the curator to it, then those back. Every edge that is looked at has
/// to point to a revision; the first one that does not gives the failure.
pub open spec fn spec_remove_developer_collective_for_curator(
    records: Seq<Record>,
    input: RemoveDeveloperCollectiveForCuratorInput,
) -> Result<Seq<RevisionId>, ValidationError> {
    match links_pointing_to_strictly(
        links(
            records,
            LinkableHash::Action(input.base_curator_hash),
            LinkTypes::CuratorToDeveloperCollectives,
        ),
        input.target_developer_collective_hash,
    ) {
        Err(e) => Err(e),
        Ok(forward) => match links_pointing_to_strictly(
            links(
                records,
                LinkableHash::Action(input.target_developer_collective_hash),
                LinkTypes::DeveloperCollectiveToCurators,
            ),
            input.base_curator_hash,
        ) {
            Err(e) => Err(e),
            Ok(back) => Ok(forward + back),
        },
    }
}

/// The edges that go when a curator lists a collective no longer.
pub fn remove_developer_collective_for_curator(
    store: &ContentStore,
    input: RemoveDeveloperCollectiveForCuratorInput,
) -> (plan: Result<Vec<RevisionId>, ValidationError>)
    ensures
        match plan {
            Ok(list) => spec_remove_developer_collective_for_curator(store@, input) == Ok::<
                Seq<RevisionId>,
                ValidationError,
            >(list@),
            Err(e) => spec_remove_developer_collective_for_curator(store@, input) == Err::<
                Seq<RevisionId>,
                ValidationError,
            >(e),
        },
{
    let mut plan = get_links_pointing_to_strictly(
        store,
        &LinkableHash::Action(input.base_curator_hash),
        LinkTypes::CuratorToDeveloperCollectives,
        &input.target_developer_collective_hash,
    )?;
    let mut back = get_links_pointing_to_strictly(
        store,
        &LinkableHash::Action(input.target_developer_collective_hash),
        LinkTypes::DeveloperCollectiveToCurators,
        &input.base_curator_hash,
    )?;
    plan.append(&mut back);
    Ok(plan)
}

} // verus!
