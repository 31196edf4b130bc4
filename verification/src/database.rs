//! How the store's records become API responses: the page window of a
//! conversation listing, the detail lists, and the nesting of groups.
use vstd::prelude::*;

use crate::models::{
    Conversation, ConversationResponse, DetailResponse, Fact, FactDetail, FactResponse, Group, GroupResponse,
    Metadata, MetadataResponse, Participant, ParticipantDetail, ParticipantResponse,
};

verus! {

/// The number of conversations a listing returns when none is asked for.
pub const DEFAULT_PAGE_LIMIT: i64 = 50;

/// The page window of a conversation listing: the requested limit and
/// offset, 50 and 0 where none was given.
pub fn page_window(limit: Option<i64>, offset: Option<i64>) -> (r: (i64, i64))
    ensures
        r.0 == match limit {
            Some(l) => l,
            None => 50,
        },
        r.1 == match offset {
            Some(o) => o,
            None => 0,
        },
{
    let l = match limit {
        Some(l) => l,
        None => DEFAULT_PAGE_LIMIT,
    };
    let o = match offset {
        Some(o) => o,
        None => 0,
    };
    (l, o)
}

/// `out` carries the keys and values of `inputs`, in order.
pub open spec fn same_participant_details(out: Seq<DetailResponse>, inputs: Seq<ParticipantDetail>) -> bool {
    &&& out.len() == inputs.len()
    &&& forall|i: int| 0 <= i < inputs.len() ==> (#[trigger] out[i]).key == inputs[i].key && out[i].value == inputs[i].value
}

/// `out` carries the keys and values of `inputs`, in order.
pub open spec fn same_fact_details(out: Seq<DetailResponse>, inputs: Seq<FactDetail>) -> bool {
    &&& out.len() == inputs.len()
    &&& forall|i: int| 0 <= i < inputs.len() ==> (#[trigger] out[i]).key == inputs[i].key && out[i].value == inputs[i].value
}

/// `out` carries the keys and values of `inputs`, in order.
pub open spec fn same_metadata(out: Seq<MetadataResponse>, inputs: Seq<Metadata>) -> bool {
    &&& out.len() == inputs.len()
    &&& forall|i: int| 0 <= i < inputs.len() ==> (#[trigger] out[i]).key == inputs[i].key && out[i].value == inputs[i].value
}

/// The elements of `v` in reverse order.
fn reversed<T>(v: Vec<T>) -> (r: Vec<T>)
    ensures
        r@.len() == v@.len(),
        forall|j: int| 0 <= j < v@.len() ==> r@[j] == v@[v@.len() - 1 - j],
{
    let ghost inputs = v@;
    let mut rest = v;
    let mut r: Vec<T> = Vec::new();
    while rest.len() > 0
        invariant
            rest@.len() + r@.len() == inputs.len(),
            rest@ == inputs.take(rest@.len() as int),
            forall|j: int| 0 <= j < r@.len() ==> r@[j] == inputs[inputs.len() - 1 - j],
        decreases rest@.len(),
    {
        let x = rest.pop().unwrap();
        assert(inputs.take(rest@.len() as int) =~= inputs.take(rest@.len() as int + 1).drop_last());
        r.push(x);
    }
    r
}

/// The key/value pairs of a participant's details, in order.
pub fn participant_details(details: Vec<ParticipantDetail>) -> (r: Vec<DetailResponse>)
    ensures
        same_participant_details(r@, details@),
{
    let ghost inputs = details@;
    let mut rest = reversed(details);
    let mut out: Vec<DetailResponse> = Vec::new();
    while rest.len() > 0
        invariant
            out@.len() + rest@.len() == inputs.len(),
            forall|j: int| 0 <= j < rest@.len() ==> rest@[j] == inputs[inputs.len() - 1 - j],
            forall|i: int| 0 <= i < out@.len() ==> (#[trigger] out@[i]).key == inputs[i].key
                && out@[i].value == inputs[i].value,
        decreases rest@.len(),
    {
        let d = rest.pop().unwrap();
        out.push(DetailResponse { key: d.key, value: d.value });
    }
    out
}

/// The key/value pairs of a fact's details, in order.
pub fn fact_details(details: Vec<FactDetail>) -> (r: Vec<DetailResponse>)
    ensures
        same_fact_details(r@, details@),
{
    let ghost inputs = details@;
    let mut rest = reversed(details);
    let mut out: Vec<DetailResponse> = Vec::new();
    while rest.len() > 0
        invariant
            out@.len() + rest@.len() == inputs.len(),
            forall|j: int| 0 <= j < rest@.len() ==> rest@[j] == inputs[inputs.len() - 1 - j],
            forall|i: int| 0 <= i < out@.len() ==> (#[trigger] out@[i]).key == inputs[i].key
                && out@[i].value == inputs[i].value,
        decreases rest@.len(),
    {
        let d = rest.pop().unwrap();
        out.push(DetailResponse { key: d.key, value: d.value });
    }
    out
}

/// The key/value pairs of a conversation's metadata, in order.
pub fn metadata_responses(metadata: Vec<Metadata>) -> (r: Vec<MetadataResponse>)
    ensures
        same_metadata(r@, metadata@),
{
    let ghost inputs = metadata@;
    let mut rest = reversed(metadata);
    let mut out: Vec<MetadataResponse> = Vec::new();
    while rest.len() > 0
        invariant
            out@.len() + rest@.len() == inputs.len(),
            forall|j: int| 0 <= j < rest@.len() ==> rest@[j] == inputs[inputs.len() - 1 - j],
            forall|i: int| 0 <= i < out@.len() ==> (#[trigger] out@[i]).key == inputs[i].key
                && out@[i].value == inputs[i].value,
        decreases rest@.len(),
    {
        let m = rest.pop().unwrap();
        out.push(MetadataResponse { key: m.key, value: m.value });
    }
    out
}

/// A participant with its details.
pub fn participant_response(participant: Participant, details: Vec<ParticipantDetail>) -> (r: ParticipantResponse)
    ensures
        r.display_name == participant.display_name,
        r.role == participant.role,
        r.started_at == participant.started_at,
        r.completed_at == participant.completed_at,
        same_participant_details(r.details@, details@),
{
    ParticipantResponse {
        display_name: participant.display_name,
        role: participant.role,
        started_at: participant.started_at,
        completed_at: participant.completed_at,
        details: participant_details(details),
    }
}

/// A fact with its details.
pub fn fact_response(fact: Fact, details: Vec<FactDetail>) -> (r: FactResponse)
    ensures
        r.fact_type == fact.fact_type,
        r.started_at == fact.started_at,
        r.completed_at == fact.completed_at,
        same_fact_details(r.details@, details@),
{
    FactResponse {
        fact_type: fact.fact_type,
        started_at: fact.started_at,
        completed_at: fact.completed_at,
        details: fact_details(details),
    }
}

/// A conversation with its participants, facts and metadata; it is served
/// without a group.
pub fn conversation_response(
    conversation: Conversation,
    participants: Vec<ParticipantResponse>,
    facts: Vec<FactResponse>,
    metadata: Vec<MetadataResponse>,
) -> (r: ConversationResponse)
    ensures
        r.guid == conversation.guid,
        r.destination == conversation.destination,
        r.tenant_guid == conversation.tenant_guid,
        r.started_at == conversation.started_at,
        r.completed_at == conversation.completed_at,
        r.participants == participants,
        r.facts == facts,
        r.metadata == metadata,
        r.group is None,
{
    ConversationResponse {
        guid: conversation.guid,
        destination: conversation.destination,
        tenant_guid: conversation.tenant_guid,
        started_at: conversation.started_at,
        completed_at: conversation.completed_at,
        participants,
        facts,
        metadata,
        group: None,
    }
}

/// The chain of groups `groups[0]`, with `groups[1]` nested as its child,
/// and so on; nothing for no groups.
pub open spec fn nested_groups(groups: Seq<Group>) -> Option<Box<GroupResponse>>
    decreases groups.len(),
{
    if groups.len() == 0 {
        None
    } else {
        Some(
            Box::new(
                GroupResponse {
                    set: groups[0].set,
                    display_name: groups[0].display_name,
                    child: nested_groups(groups.drop_first()),
                },
            ),
        )
    }
}

/// The number of groups in a nested chain.
pub open spec fn chain_depth(g: Option<Box<GroupResponse>>) -> nat
    decreases g,
{
    match g {
        Some(b) => 1 + chain_depth(b.child),
        None => 0,
    }
}

/// Nests a chain of groups, each the parent of the next.
pub fn nest_groups(groups: Vec<Group>) -> (r: Option<Box<GroupResponse>>)
    ensures
        r == nested_groups(groups@),
{
    let ghost all = groups@;
    let mut rest = groups;
    let mut acc: Option<Box<GroupResponse>> = None;
    assert(all.subrange(all.len() as int, all.len() as int) =~= Seq::<Group>::empty());
    while rest.len() > 0
        invariant
            rest@ == all.take(rest@.len() as int),
            rest@.len() <= all.len(),
            acc == nested_groups(all.subrange(rest@.len() as int, all.len() as int)),
        decreases rest@.len(),
    {
        let g = rest.pop().unwrap();
        let k = rest.len();
        assert(all.take(k as int) =~= all.take(k as int + 1).drop_last());
        let ghost tail = all.subrange(k as int, all.len() as int);
        assert(tail.drop_first() =~= all.subrange(k as int + 1, all.len() as int));
        assert(tail[0] == g);
        acc = Some(Box::new(GroupResponse { set: g.set, display_name: g.display_name, child: acc }));
    }
    assert(all.subrange(0, all.len() as int) =~= all);
    acc
}

/// One step down a chain of groups: a found child joins the chain and its
/// GUID is the parent to look up next; no child ends the chain.
pub fn descend_groups(chain: &mut Vec<Group>, found: Option<Group>) -> (next_parent: Option<u128>)
    ensures
        match found {
            Some(g) => final(chain)@ == old(chain)@.push(g) && next_parent == Some(g.guid),
            None => final(chain)@ == old(chain)@ && next_parent is None,
        },
{
    match found {
        Some(g) => {
            let guid = g.guid;
            chain.push(g);
            Some(guid)
        },
        None => None,
    }
}

/// A top-level group with the chain of groups below it.
pub fn group_response(root: Group, descendants: Vec<Group>) -> (r: GroupResponse)
    ensures
        r.set == root.set,
        r.display_name == root.display_name,
        r.child == nested_groups(descendants@),
{
    GroupResponse { set: root.set, display_name: root.display_name, child: nest_groups(descendants) }
}

/// The group shown `k` levels down a nested chain, following `child` links.
pub open spec fn chain_level(g: Option<Box<GroupResponse>>, k: nat) -> Option<GroupResponse>
    decreases k,
{
    match g {
        None => None,
        Some(b) => if k == 0 {
            Some(*b)
        } else {
            chain_level(b.child, (k - 1) as nat)
        },
    }
}

/// Each level of a nested chain shows its own group: level `k` has the set
/// and name of `groups[k]`, and there is no level past the last group.
pub proof fn lemma_nested_groups_levels(groups: Seq<Group>)
    ensures
        forall|k: int|
            0 <= k < groups.len() ==> ((#[trigger] chain_level(nested_groups(groups), k as nat)) matches Some(l)
                && l.set == groups[k].set && l.display_name == groups[k].display_name),
        chain_level(nested_groups(groups), groups.len()) is None,
    decreases groups.len(),
{
    if groups.len() > 0 {
        let rest = groups.drop_first();
        lemma_nested_groups_levels(rest);
        assert forall|k: int| 0 <= k < groups.len() implies ((#[trigger] chain_level(
            nested_groups(groups),
            k as nat,
        )) matches Some(l) && l.set == groups[k].set && l.display_name == groups[k].display_name) by {
            if k > 0 {
                assert(chain_level(nested_groups(groups), k as nat) == chain_level(nested_groups(rest), (k - 1) as nat));
                assert(rest[k - 1] == groups[k]);
            }
        }
        assert(chain_level(nested_groups(groups), groups.len()) == chain_level(nested_groups(rest), rest.len()));
    }
}

/// A nested chain holds one level per group, and each level shows the
/// set and name of its group.
pub proof fn lemma_nested_groups_depth(groups: Seq<Group>)
    ensures
        chain_depth(nested_groups(groups)) == groups.len(),
    decreases groups.len(),
{
    if groups.len() > 0 {
        lemma_nested_groups_depth(groups.drop_first());
    }
}

} // verus!
