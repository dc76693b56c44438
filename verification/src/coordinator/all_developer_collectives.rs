//! The list of all collectives.

use crate::coordinator::revisions::{get_linked_records, linked_records};
use crate::hash::LinkableHash;
use crate::integrity::LinkTypes;
use crate::outcome::ValidationError;
use crate::record::Record;
use crate::store::{is_list_or_failure, links, records_of, ContentStore};
use vstd::prelude::*;

verus! {

/// The edges of the list of all collectives.
pub fn get_all_developer_collective_links<'a>(store: &'a ContentStore) -> (found: Vec<&'a Record>)
    ensures
        records_of(found@) == links(
            store@,
            LinkableHash::Entry(store.spec_anchors().all_developer_collectives),
            LinkTypes::AllDeveloperCollectives,
        ),
{
    store.get_links(
        &LinkableHash::from_entry_hash(store.anchors().all_developer_collectives),
        LinkTypes::AllDeveloperCollectives,
    )
}

/// The first records of the collectives on the list of all collectives.
pub fn get_all_original_developer_collectives<'a>(store: &'a ContentStore) -> (found: Result<
    Vec<&'a Record>,
    ValidationError,
>)
    ensures
        is_list_or_failure(
            found,
            linked_records(
                store@,
                links(
                    store@,
                    LinkableHash::Entry(store.spec_anchors().all_developer_collectives),
                    LinkTypes::AllDeveloperCollectives,
                ),
            ),
        ),
{
    let edges = get_all_developer_collective_links(store);
    get_linked_records(store, &edges)
}

} // verus!
