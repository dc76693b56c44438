//! Which permission a principal holds for a collective.
//!
//! A principal can hold several permissions for one collective at a time,
//! some with an end and some without. The one that counts is the one that
//! binds the least: a permission without an end before any with one, and of
//! those with an end the one that ends last.

use crate::coordinator::revisions::get_original;
use crate::coordinator::CreateLinkInput;
use crate::hash::{HashError, LinkableHash, Principal, RevisionId};
use crate::integrity::contributor_permission::ContributorPermission;
use crate::integrity::LinkTypes;
use crate::record::{Action, Record, Timestamp};
use crate::store::{is_record, links, live, lookup, records_of, ContentStore};
use vstd::prelude::*;

verus! {

/// For whom and for which collective a permission is looked up.
#[derive(Clone, Copy, Debug, PartialEq, Eq)]
pub struct GetAgentPermissionInput {
    pub developer_collective_hash: RevisionId,
    pub agent: Principal,
}

/// A permission that was found: where it is, and when it ends.
#[derive(Clone, Copy, Debug, PartialEq, Eq)]
pub struct GrantRef {
    pub permission_hash: RevisionId,
    pub expiry: Option<Timestamp>,
}

/// The permission for `agent` and `collective` that an edge from the
/// collective leads to, if it leads to one.
///
/// The tag of the edge has to name `agent`; that is how the edges of one
/// principal are told from the others. The tag alone proves nothing, so the
/// permission that the edge points to is read, and has to be for `agent` and
/// for `collective` itself. An edge to a record that is not shown, or that
/// holds no permission, leads to none.
pub open spec fn grant_of_link(
    records: Seq<Record>,
    edge: Record,
    agent: Principal,
    collective: RevisionId,
) -> Option<GrantRef> {
    match edge.action {
        Action::CreateLink(link) => if Principal::spec_from_raw_39(link.tag@) == Ok::<
            Principal,
            HashError,
        >(agent) {
            match link.target_address {
                LinkableHash::Action(id) => match live(records, id) {
                    Some(record) => match record.entry.spec_to_contributor_permission() {
                        Ok(Some(permission)) => if permission.for_agent == agent
                            && permission.for_collective == collective {
                            Some(GrantRef { permission_hash: id, expiry: permission.expiry })
                        } else {
                            None
                        },
                        _ => None,
                    },
                    None => None,
                },
                _ => None,
            }
        } else {
            None
        },
        _ => None,
    }
}

/// The permissions for `agent` and `collective` that can be found from the
/// collective, in the order in which the edges to them came to be known.
pub open spec fn grants(records: Seq<Record>, agent: Principal, collective: RevisionId) -> Seq<
    GrantRef,
> {
    links(
        records,
        LinkableHash::Action(collective),
        LinkTypes::DeveloperCollectiveToContributorPermissions,
    ).filter_map(|edge: Record| grant_of_link(records, edge, agent, collective))
}

/// The first permission without an end.
pub open spec fn first_indefinite(found: Seq<GrantRef>) -> Option<GrantRef>
    decreases found.len(),
{
    if found.len() == 0 {
        None
    } else {
        match first_indefinite(found.drop_last()) {
            Some(grant) => Some(grant),
            None => if found.last().expiry is None {
                Some(found.last())
            } else {
                None
            },
        }
    }
}

/// Of the permissions with an end, the one that ends last. Of several that
/// end at the same time, it is the one that was found last.
pub open spec fn longest(found: Seq<GrantRef>) -> Option<GrantRef>
    decreases found.len(),
{
    if found.len() == 0 {
        None
    } else {
        let before = longest(found.drop_last());
        match (found.last().expiry, before) {
            (None, _) => before,
            (Some(expiry), Some(best)) => if best.expiry->Some_0.0 > expiry.0 {
                before
            } else {
                Some(found.last())
            },
            (Some(_), None) => Some(found.last()),
        }
    }
}

/// The permission that counts among those found, at the time `now`: the
/// first one without an end; where all have an end, the one that ends last,
/// unless it has ended before `now`.
pub open spec fn resolve_grants(found: Seq<GrantRef>, now: Timestamp) -> Option<RevisionId> {
    match first_indefinite(found) {
        Some(grant) => Some(grant.permission_hash),
        None => match longest(found) {
            Some(GrantRef { permission_hash, expiry: Some(expiry) }) => if now.0 > expiry.0 {
                None
            } else {
                Some(permission_hash)
            },
            _ => None,
        },
    }
}

/// The permission that `agent` holds for `collective` at the time `now`.
///
/// The principal that created the collective holds the collective itself,
/// whatever permissions there are. Anyone else holds what counts among the
/// permissions found for them. Nothing is held for a collective that is not
/// shown.
pub open spec fn spec_agent_permission(
    records: Seq<Record>,
    agent: Principal,
    collective: RevisionId,
    now: Timestamp,
) -> Option<RevisionId> {
    match live(records, collective) {
        None => None,
        Some(record) => if record.spec_author() == agent {
            Some(collective)
        } else {
            resolve_grants(grants(records, agent, collective), now)
        },
    }
}

proof fn lemma_filter_map_step<A, B>(s: Seq<A>, f: spec_fn(A) -> Option<B>, i: int)
    requires
        0 <= i < s.len(),
    ensures
        s.take(i + 1).filter_map(f) == match f(s[i]) {
            Some(b) => s.take(i).filter_map(f).push(b),
            None => s.take(i).filter_map(f),
        },
{
    assert(s.take(i + 1).drop_last() =~= s.take(i));
    assert(s.take(i + 1).last() == s[i]);
    match f(s[i]) {
        Some(b) => {
            assert(s.take(i).filter_map(f) + seq![b] =~= s.take(i).filter_map(f).push(b));
        },
        None => {},
    }
}

proof fn lemma_resolve_step(found: Seq<GrantRef>, grant: GrantRef)
    ensures
        first_indefinite(found.push(grant)) == match first_indefinite(found) {
            Some(first) => Some(first),
            None => if grant.expiry is None {
                Some(grant)
            } else {
                None
            },
        },
        longest(found.push(grant)) == match (grant.expiry, longest(found)) {
            (None, before) => before,
            (Some(expiry), Some(best)) => if best.expiry->Some_0.0 > expiry.0 {
                Some(best)
            } else {
                Some(grant)
            },
            (Some(_), None) => Some(grant),
        },
{
    assert(found.push(grant).drop_last() =~= found);
    assert(found.push(grant).last() == grant);
}

proof fn lemma_first_indefinite_stays(
    all: Seq<Record>,
    read: spec_fn(Record) -> Option<GrantRef>,
    i: int,
    j: int,
)
    requires
        0 <= i <= j <= all.len(),
        first_indefinite(all.take(i).filter_map(read)) is Some,
    ensures
        first_indefinite(all.take(j).filter_map(read)) == first_indefinite(
            all.take(i).filter_map(read),
        ),
    decreases j - i,
{
    if i < j {
        lemma_first_indefinite_stays(all, read, i, j - 1);
        lemma_filter_map_step(all, read, j - 1);
        match read(all[j - 1]) {
            Some(grant) => {
                lemma_resolve_step(all.take(j - 1).filter_map(read), grant);
            },
            None => {},
        }
    }
}

/// The first permission without an end is one of those found and has no
/// end; there is one exactly if some permission found has no end.
pub proof fn lemma_first_indefinite(found: Seq<GrantRef>)
    ensures
        first_indefinite(found) is Some <==> exists|i: int|
            0 <= i < found.len() && (#[trigger] found[i]).expiry is None,
        first_indefinite(found) is Some ==> found.contains(first_indefinite(found)->Some_0)
            && first_indefinite(found)->Some_0.expiry is None,
    decreases found.len(),
{
    if found.len() > 0 {
        let rest = found.drop_last();
        lemma_first_indefinite(rest);
        if first_indefinite(rest) is Some {
            let g = first_indefinite(rest)->Some_0;
            let i = choose|i: int| 0 <= i < rest.len() && rest[i] == g;
            assert(found[i] == g);
            let j = choose|j: int| 0 <= j < rest.len() && (#[trigger] rest[j]).expiry is None;
            assert(found[j].expiry is None);
        } else {
            if found.last().expiry is None {
                assert(found[found.len() - 1] == found.last());
            } else {
                assert forall|i: int| 0 <= i < found.len() implies !((#[trigger] found[i]).expiry
                    is None) by {
                    if i < rest.len() {
                        assert(rest[i] == found[i]);
                    }
                }
            }
        }
    }
}

/// Of the permissions with an end, the one that ends last is one of those
/// found, has an end, and no permission found ends after it; there is one
/// exactly if some permission found has an end.
pub proof fn lemma_longest(found: Seq<GrantRef>)
    ensures
        longest(found) is Some <==> exists|i: int|
            0 <= i < found.len() && (#[trigger] found[i]).expiry is Some,
        longest(found) is Some ==> found.contains(longest(found)->Some_0) && longest(
            found,
        )->Some_0.expiry is Some,
        longest(found) is Some ==> forall|i: int|
            0 <= i < found.len() && (#[trigger] found[i]).expiry is Some
                ==> found[i].expiry->Some_0.0 <= longest(found)->Some_0.expiry->Some_0.0,
    decreases found.len(),
{
    if found.len() > 0 {
        let rest = found.drop_last();
        lemma_longest(rest);
        let last = found.last();
        assert(found[found.len() - 1] == last);
        if longest(rest) is Some {
            let g = longest(rest)->Some_0;
            let i = choose|i: int| 0 <= i < rest.len() && rest[i] == g;
            assert(found[i] == g);
        }
        if longest(found) is Some {
            let best = longest(found)->Some_0.expiry->Some_0;
            assert forall|i: int|
                0 <= i < found.len() && (#[trigger] found[i]).expiry is Some implies found[i]
                    .expiry->Some_0.0 <= best.0 by {
                if i < rest.len() {
                    assert(rest[i] == found[i]);
                }
            }
        } else {
            assert forall|i: int| 0 <= i < found.len() implies !((#[trigger] found[i]).expiry
                is Some) by {
                if i < rest.len() {
                    assert(rest[i] == found[i]);
                }
            }
        }
    }
}

fn read_grant(
    store: &ContentStore,
    edge: &Record,
    agent: &Principal,
    collective: &RevisionId,
) -> (grant: Option<GrantRef>)
    ensures
        grant == grant_of_link(store@, *edge, *agent, *collective),
{
    let link = match &edge.action {
        Action::CreateLink(link) => link,
        _ => {
            return None;
        },
    };
    match Principal::from_raw_39(&link.tag) {
        Ok(permitted_agent) => {
            if permitted_agent != *agent {
                return None;
            }
        },
        Err(_) => {
            return None;
        },
    }
    let id = match link.target_address {
        LinkableHash::Action(id) => id,
        _ => {
            return None;
        },
    };
    let record = match store.get(&id) {
        Some(record) => record,
        None => {
            return None;
        },
    };
    match record.entry.to_contributor_permission() {
        Ok(Some(permission)) => {
            if permission.for_agent == *agent && permission.for_collective == *collective {
                Some(GrantRef { permission_hash: id, expiry: permission.expiry })
            } else {
                None
            }
        },
        _ => None,
    }
}

/// Finds the permission that a principal holds for a collective at the time
/// `now`: the one that binds the least of those that can be found. The search
/// ends at the first permission without an end.
pub fn get_agent_permission(
    store: &ContentStore,
    input: GetAgentPermissionInput,
    now: Timestamp,
) -> (held: Option<RevisionId>)
    ensures
        held == spec_agent_permission(
            store@,
            input.agent,
            input.developer_collective_hash,
            now,
        ),
        live(store@, input.developer_collective_hash) matches Some(record)
            && record.spec_author() == input.agent ==> held == Some(
            input.developer_collective_hash,
        ),
{
    let collective = input.developer_collective_hash;
    let agent = input.agent;
    let record = match store.get(&collective) {
        Some(record) => record,
        None => {
            return None;
        },
    };
    if record.author() == agent {
        return Some(collective);
    }
    let edges = store.get_links(
        &LinkableHash::Action(collective),
        LinkTypes::DeveloperCollectiveToContributorPermissions,
    );
    let ghost all = records_of(edges@);
    let ghost read = |edge: Record| grant_of_link(store@, edge, agent, collective);
    let mut best: Option<GrantRef> = None;
    let mut i: usize = 0;
    proof {
        assert(all.take(0).filter_map(read) =~= Seq::<GrantRef>::empty());
    }
    while i < edges.len()
        invariant
            i <= edges@.len(),
            all == records_of(edges@),
            all == links(
                store@,
                LinkableHash::Action(collective),
                LinkTypes::DeveloperCollectiveToContributorPermissions,
            ),
            read == |edge: Record| grant_of_link(store@, edge, agent, collective),
            collective == input.developer_collective_hash,
            agent == input.agent,
            live(store@, collective) matches Some(record) && record.spec_author() != agent,
            first_indefinite(all.take(i as int).filter_map(read)) is None,
            best == longest(all.take(i as int).filter_map(read)),
        decreases edges@.len() - i,
    {
        let edge: &Record = edges[i];
        proof {
            lemma_filter_map_step(all, read, i as int);
        }
        match read_grant(store, edge, &agent, &collective) {
            Some(grant) => {
                proof {
                    lemma_resolve_step(all.take(i as int).filter_map(read), grant);
                }
                match grant.expiry {
                    None => {
                        proof {
                            let found = all.take(i as int + 1).filter_map(read);
                            assert(first_indefinite(found) == Some(grant));
                            let n = all.len() as int;
                            lemma_first_indefinite_stays(all, read, i as int + 1, n);
                            assert(all.take(n) =~= all);
                        }
                        return Some(grant.permission_hash);
                    },
                    Some(expiry) => {
                        let keep = match best {
                            Some(GrantRef { permission_hash: _, expiry: Some(end) }) => {
                                end.0 > expiry.0
                            },
                            _ => false,
                        };
                        proof {
                            lemma_longest(all.take(i as int).filter_map(read));
                        }
                        if !keep {
                            best = Some(grant);
                        }
                    },
                }
            },
            None => {},
        }
        i += 1;
    }
    assert(all.take(i as int) =~= all);
    proof {
        lemma_longest(all.filter_map(read));
    }
    match best {
        Some(GrantRef { permission_hash, expiry: Some(expiry) }) => {
            if now.0 > expiry.0 {
                None
            } else {
                Some(permission_hash)
            }
        },
        _ => None,
    }
}

/// Finds the permission that the acting principal `me` holds for a
/// collective at the time `now`.
pub fn get_my_permission(
    store: &ContentStore,
    me: Principal,
    developer_collective_hash: RevisionId,
    now: Timestamp,
) -> (held: Option<RevisionId>)
    ensures
        held == spec_agent_permission(store@, me, developer_collective_hash, now),
{
    let input = GetAgentPermissionInput { developer_collective_hash, agent: me };
    get_agent_permission(store, input, now)
}

/// The owner of a collective always holds the collective itself, whatever
/// permissions there are or are not.
pub proof fn lemma_owner_holds_collective(
    records: Seq<Record>,
    agent: Principal,
    collective: RevisionId,
    now: Timestamp,
)
    requires
        live(records, collective) matches Some(record) && record.spec_author() == agent,
    ensures
        spec_agent_permission(records, agent, collective, now) == Some(collective),
{
}

/// Where a permission without an end can be found for a principal and a
/// collective that is shown, the principal holds something at any time, and
/// what it holds is never a permission with an end: it is the collective
/// itself, for its owner, or a permission without an end.
pub proof fn lemma_indefinite_grant_wins(
    records: Seq<Record>,
    agent: Principal,
    collective: RevisionId,
    now: Timestamp,
)
    requires
        live(records, collective) is Some,
        exists|i: int|
            0 <= i < grants(records, agent, collective).len() && (#[trigger] grants(
                records,
                agent,
                collective,
            )[i]).expiry is None,
    ensures
        spec_agent_permission(records, agent, collective, now) is Some,
        live(records, collective)->Some_0.spec_author() == agent ==> spec_agent_permission(
            records,
            agent,
            collective,
            now,
        ) == Some(collective),
        live(records, collective)->Some_0.spec_author() != agent ==> exists|i: int|
            0 <= i < grants(records, agent, collective).len() && (#[trigger] grants(
                records,
                agent,
                collective,
            )[i]).expiry is None && spec_agent_permission(records, agent, collective, now) == Some(
                grants(records, agent, collective)[i].permission_hash,
            ),
{
    let found = grants(records, agent, collective);
    lemma_first_indefinite(found);
    if live(records, collective)->Some_0.spec_author() != agent {
        let first = first_indefinite(found)->Some_0;
        let i = choose|i: int| 0 <= i < found.len() && found[i] == first;
        assert(found[i].expiry is None);
    }
}

/// Where every permission that can be found for a principal, who is not the
/// owner, and a collective that is shown has an end, the principal holds one
/// that ends last, as long as that end has not passed, and nothing after it
/// has passed.
pub proof fn lemma_longest_grant_wins(
    records: Seq<Record>,
    agent: Principal,
    collective: RevisionId,
    now: Timestamp,
)
    requires
        live(records, collective) matches Some(record) && record.spec_author() != agent,
        grants(records, agent, collective).len() > 0,
        forall|i: int|
            0 <= i < grants(records, agent, collective).len() ==> (#[trigger] grants(
                records,
                agent,
                collective,
            )[i]).expiry is Some,
    ensures
        exists|i: int|
            0 <= i < grants(records, agent, collective).len() && {
                let last = #[trigger] grants(records, agent, collective)[i];
                &&& forall|j: int|
                    0 <= j < grants(records, agent, collective).len() ==> (#[trigger] grants(
                        records,
                        agent,
                        collective,
                    )[j]).expiry->Some_0.0 <= last.expiry->Some_0.0
                &&& spec_agent_permission(records, agent, collective, now) == if now.0
                    > last.expiry->Some_0.0 {
                    None
                } else {
                    Some(last.permission_hash)
                }
            },
{
    let found = grants(records, agent, collective);
    lemma_first_indefinite(found);
    lemma_longest(found);
    assert(found[0].expiry is Some);
    let last = longest(found)->Some_0;
    let i = choose|i: int| 0 <= i < found.len() && found[i] == last;
    assert(found[i] == last);
}

/// The edges that go with a new permission: one from the collective, whose
/// tag names the principal, and one from the principal, whose tag names the
/// collective.
pub fn create_contributor_permission(
    contributor_permission: &ContributorPermission,
    contributor_permission_hash: RevisionId,
) -> (plan: Vec<CreateLinkInput>)
    ensures
        plan@.len() == 2,
        plan@[0].connects(
            LinkableHash::Action(contributor_permission.for_collective),
            LinkableHash::Action(contributor_permission_hash),
            LinkTypes::DeveloperCollectiveToContributorPermissions,
            contributor_permission.for_agent.spec_raw_39(),
        ),
        plan@[1].connects(
            LinkableHash::from_agent(contributor_permission.for_agent),
            LinkableHash::Action(contributor_permission_hash),
            LinkTypes::ContributorToContributorPermissions,
            contributor_permission.for_collective.spec_raw_39(),
        ),
        Principal::spec_from_raw_39(plan@[0].tag@) == Ok::<Principal, HashError>(
            contributor_permission.for_agent,
        ),
        RevisionId::spec_from_raw_39(plan@[1].tag@) == Ok::<RevisionId, HashError>(
            contributor_permission.for_collective,
        ),
{
    let mut plan: Vec<CreateLinkInput> = Vec::new();
    plan.push(
        CreateLinkInput {
            base_address: LinkableHash::from_action_hash(contributor_permission.for_collective),
            target_address: LinkableHash::from_action_hash(contributor_permission_hash),
            link_type: LinkTypes::DeveloperCollectiveToContributorPermissions,
            tag: contributor_permission.for_agent.get_raw_39(),
        },
    );
    plan.push(
        CreateLinkInput {
            base_address: LinkableHash::from_agent_pub_key(contributor_permission.for_agent),
            target_address: LinkableHash::from_action_hash(contributor_permission_hash),
            link_type: LinkTypes::ContributorToContributorPermissions,
            tag: contributor_permission.for_collective.get_raw_39(),
        },
    );
    plan
}

/// The record of a permission, whether or not something marks it as
/// removed.
pub fn get_contributor_permission<'a>(
    store: &'a ContentStore,
    contributor_permission_hash: &RevisionId,
) -> (found: Option<&'a Record>)
    ensures
        is_record(found, lookup(store@, *contributor_permission_hash)),
{
    get_original(store, contributor_permission_hash)
}

/// The edges from a collective to the permissions issued for it.
pub fn get_contributor_permissions_for_developer_collective<'a>(
    store: &'a ContentStore,
    developer_collective_hash: &RevisionId,
) -> (found: Vec<&'a Record>)
    ensures
        records_of(found@) == links(
            store@,
            LinkableHash::Action(*developer_collective_hash),
            LinkTypes::DeveloperCollectiveToContributorPermissions,
        ),
{
    store.get_links(
        &LinkableHash::Action(*developer_collective_hash),
        LinkTypes::DeveloperCollectiveToContributorPermissions,
    )
}

/// The edges from a principal to the permissions issued to it.
pub fn get_contributor_permissions_for_contributor<'a>(
    store: &'a ContentStore,
    contributor: Principal,
) -> (found: Vec<&'a Record>)
    ensures
        records_of(found@) == links(
            store@,
            LinkableHash::from_agent(contributor),
            LinkTypes::ContributorToContributorPermissions,
        ),
{
    store.get_links(
        &LinkableHash::from_agent_pub_key(contributor),
        LinkTypes::ContributorToContributorPermissions,
    )
}

} // verus!
