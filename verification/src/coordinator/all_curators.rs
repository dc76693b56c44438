//! The list of all curators.

use crate::hash::LinkableHash;
use crate::integrity::LinkTypes;
use crate::record::Record;
use crate::store::{links, records_of, ContentStore};
use vstd::prelude::*;

verus! {

/// The edges of the list of all curators.
pub fn get_all_curators<'a>(store: &'a ContentStore) -> (found: Vec<&'a Record>)
    ensures
        records_of(found@) == links(
            store@,
            LinkableHash::Entry(store.spec_anchors().all_curators),
            LinkTypes::AllCurators,
        ),
{
    store.get_links(
        &LinkableHash::from_entry_hash(store.anchors().all_curators),
        LinkTypes::AllCurators,
    )
}

} // verus!
