//! Which tools a curator lists.

use crate::coordinator::revisions::{
    get_deleted_links, get_links_pointing_to_strictly, is_deleted_links,
    links_pointing_to_strictly,
};
use crate::coordinator::CreateLinkInput;
use crate::hash::{LinkableHash, RevisionId};
use crate::integrity::LinkTypes;
use crate::outcome::ValidationError;
use crate::record::Record;
use crate::store::{links, records_of, ContentStore, LinkDetails};
use vstd::prelude::*;

verus! {

/// A curator and a tool that it is to list.
#[derive(Clone, Copy, Debug, PartialEq, Eq)]
pub struct AddToolForCuratorInput {
    pub base_curator_hash: RevisionId,
    pub target_tool_hash: RevisionId,
}

/// A curator and a tool that it is to list no longer.
#[derive(Clone, Copy, Debug, PartialEq, Eq)]
pub struct RemoveToolForCuratorInput {
    pub base_curator_hash: RevisionId,
    pub target_tool_hash: RevisionId,
}

/// The edges with which a curator lists a tool: one from the curator, and
/// one back to it.
pub fn add_tool_for_curator(input: AddToolForCuratorInput) -> (plan: Vec<CreateLinkInput>)
    ensures
        plan@.len() == 2,
        plan@[0].connects(
            LinkableHash::Action(input.base_curator_hash),
            LinkableHash::Action(input.target_tool_hash),
            LinkTypes::CuratorToTools,
            Seq::empty(),
        ),
        plan@[1].connects(
            LinkableHash::Action(input.target_tool_hash),
            LinkableHash::Action(input.base_curator_hash),
            LinkTypes::ToolToCurators,
            Seq::empty(),
        ),
{
    let mut plan: Vec<CreateLinkInput> = Vec::new();
    plan.push(
        CreateLinkInput {
            base_address: LinkableHash::from_action_hash(input.base_curator_hash),
            target_address: LinkableHash::from_action_hash(input.target_tool_hash),
            link_type: LinkTypes::CuratorToTools,
            tag: Vec::new(),
        },
    );
    plan.push(
        CreateLinkInput {
            base_address: LinkableHash::from_action_hash(input.target_tool_hash),
            target_address: LinkableHash::from_action_hash(input.base_curator_hash),
            link_type: LinkTypes::ToolToCurators,
            tag: Vec::new(),
        },
    );
    plan
}

/// The edges from a curator to the tools that it lists.
pub fn get_tools_for_curator<'a>(store: &'a ContentStore, curator_hash: &RevisionId) -> (found:
    Vec<&'a Record>)
    ensures
        records_of(found@) == links(
            store@,
            LinkableHash::Action(*curator_hash),
            LinkTypes::CuratorToTools,
        ),
{
    store.get_links(&LinkableHash::Action(*curator_hash), LinkTypes::CuratorToTools)
}

/// The removed edges from a curator to tools, each with the records
/// that mark it as removed.
pub fn get_deleted_tools_for_curator<'a>(
    store: &'a ContentStore,
    curator_hash: &RevisionId,
) -> (found: Vec<LinkDetails<'a>>)
    ensures
        is_deleted_links(
            found@,
            store@,
            LinkableHash::Action(*curator_hash),
            LinkTypes::CuratorToTools,
        ),
{
    get_deleted_links(store, &LinkableHash::Action(*curator_hash), LinkTypes::CuratorToTools)
}

/// The edges from a tool to the curators that list it.
pub fn get_curators_for_tool<'a>(store: &'a ContentStore, tool_hash: &RevisionId) -> (found: Vec<
    &'a Record,
>)
    ensures
        records_of(found@) == links(
            store@,
            LinkableHash::Action(*tool_hash),
            LinkTypes::ToolToCurators,
        ),
{
    store.get_links(&LinkableHash::Action(*tool_hash), LinkTypes::ToolToCurators)
}

/// The removed edges from a tool to curators, each with the records that
/// mark it as removed.
pub fn get_deleted_curators_for_tool<'a>(
    store: &'a ContentStore,
    tool_hash: &RevisionId,
) -> (found: Vec<LinkDetails<'a>>)
    ensures
        is_deleted_links(
            found@,
            store@,
            LinkableHash::Action(*tool_hash),
            LinkTypes::ToolToCurators,
        ),
{
    get_deleted_links(store, &LinkableHash::Action(*tool_hash), LinkTypes::ToolToCurators)
}

/// The edges that go when a curator lists a tool no longer: first those
/// from the curator to it, then those back. Every edge that is looked at has
/// to point to a revision; the first one that does not gives the failure.
pub open spec fn spec_remove_tool_for_curator(
    records: Seq<Record>,
    input: RemoveToolForCuratorInput,
) -> Result<Seq<RevisionId>, ValidationError> {
    match links_pointing_to_strictly(
        links(
            records,
            LinkableHash::Action(input.base_curator_hash),
            LinkTypes::CuratorToTools,
        ),
        input.target_tool_hash,
    ) {
        Err(e) => Err(e),
        Ok(forward) => match links_pointing_to_strictly(
            links(
                records,
                LinkableHash::Action(input.target_tool_hash),
                LinkTypes::ToolToCurators,
            ),
            input.base_curator_hash,
        ) {
            Err(e) => Err(e),
            Ok(back) => Ok(forward + back),
        },
    }
}

/// The edges that go when a curator lists a tool no longer.
pub fn remove_tool_for_curator(store: &ContentStore, input: RemoveToolForCuratorInput) -> (plan:
    Result<Vec<RevisionId>, ValidationError>)
    ensures
        match plan {
            Ok(list) => spec_remove_tool_for_curator(store@, input) == Ok::<
                Seq<RevisionId>,
                ValidationError,
            >(list@),
            Err(e) => spec_remove_tool_for_curator(store@, input) == Err::<
                Seq<RevisionId>,
                ValidationError,
            >(e),
        },
{
    let mut plan = get_links_pointing_to_strictly(
        store,
        &LinkableHash::Action(input.base_curator_hash),
        LinkTypes::CuratorToTools,
        &input.target_tool_hash,
    )?;
    let mut back = get_links_pointing_to_strictly(
        store,
        &LinkableHash::Action(input.target_tool_hash),
        LinkTypes::ToolToCurators,
        &input.base_curator_hash,
    )?;
    plan.append(&mut back);
    Ok(plan)
}

} // verus!
