//! The list of all agents.

use crate::hash::{LinkableHash, Principal};
use crate::integrity::LinkTypes;
use crate::record::Record;
use crate::store::{links, records_of, ContentStore};
use vstd::prelude::*;

verus! {

/// The principals that a list of edges points to, in the order of the edges,
/// without the edges that point to something else.
pub open spec fn linked_agents(edges: Seq<Record>) -> Seq<Principal> {
    edges.filter_map(
        |edge: Record|
            match edge.spec_link_target() {
                Some(target) => target.spec_into_agent_pub_key(),
                None => None,
            },
    )
}

/// Every agent on the list of all agents.
pub fn get_all_agents(store: &ContentStore) -> (agents: Vec<Principal>)
    ensures
        agents@ == linked_agents(
            links(
                store@,
                LinkableHash::Entry(store.spec_anchors().all_agents),
                LinkTypes::AllAgents,
            ),
        ),
{
    let edges = store.get_links(
        &LinkableHash::from_entry_hash(store.anchors().all_agents),
        LinkTypes::AllAgents,
    );
    let ghost all = records_of(edges@);
    let ghost read = |edge: Record|
        match edge.spec_link_target() {
            Some(target) => target.spec_into_agent_pub_key(),
            None => None,
        };
    let mut agents: Vec<Principal> = Vec::new();
    assert(all.take(0).filter_map(read) =~= Seq::<Principal>::empty());
    let mut i: usize = 0;
    while i < edges.len()
        invariant
            i <= edges@.len(),
            all == records_of(edges@),
            read == |edge: Record|
                match edge.spec_link_target() {
                    Some(target) => target.spec_into_agent_pub_key(),
                    None => None,
                },
            agents@ == all.take(i as int).filter_map(read),
        decreases edges@.len() - i,
    {
        let edge: &Record = edges[i];
        proof {
            assert(all.take(i + 1).drop_last() =~= all.take(i as int));
            assert(all.take(i + 1).last() == all[i as int]);
        }
        let agent = match edge.link_target() {
            Some(target) => target.into_agent_pub_key(),
            None => None,
        };
        match agent {
            Some(agent) => {
                let ghost sofar = agents@;
                agents.push(agent);
                assert(agents@ =~= sofar + seq![agent]);
            },
            None => {},
        }
        i += 1;
    }
    assert(all.take(i as int) =~= all);
    agents
}

} // verus!
