//! The records of the conversations store, the token claims, and the
//! shapes of the API responses.
//!
//! Identifiers are held as their 128-bit value and instants as seconds
//! and nanoseconds since the Unix epoch, in UTC.
use vstd::prelude::*;

verus! {

/// An instant in UTC: whole seconds since the Unix epoch and the
/// nanoseconds within that second.
#[derive(Clone, Copy, Debug, PartialEq, Eq, Structural)]
pub struct Timestamp {
    pub seconds: i64,
    pub nanos: u32,
}

/// A tenant: a hostname with its identity provider settings.
#[derive(Debug)]
pub struct Tenant {
    pub id: i32,
    pub guid: u128,
    pub hostname: String,
    pub display_name: String,
    pub keycloak_url: String,
    pub keycloak_realm: String,
    pub keycloak_client: String,
    pub manager_url: String,
    pub quality: String,
    /// A comma-separated list of STUN server addresses.
    pub stun_servers: String,
}

/// A recorded conversation of a tenant.
#[derive(Debug)]
pub struct Conversation {
    pub id: i32,
    pub guid: u128,
    pub tenant_guid: u128,
    pub destination: String,
    pub started_at: Timestamp,
    pub completed_at: Option<Timestamp>,
}

/// A party to a conversation ("agent" or "customer").
#[derive(Debug)]
pub struct Participant {
    pub id: i32,
    pub guid: u128,
    pub conversation_guid: u128,
    pub display_name: Option<String>,
    pub role: String,
    pub started_at: Timestamp,
    pub completed_at: Option<Timestamp>,
}

/// A key/value detail of a participant.
#[derive(Debug)]
pub struct ParticipantDetail {
    pub id: i32,
    pub participant_guid: u128,
    pub key: String,
    pub value: String,
}

/// An event in a conversation ("conversation_start", "switch", "hold", ...).
#[derive(Debug)]
pub struct Fact {
    pub id: i32,
    pub guid: u128,
    pub conversation_guid: u128,
    pub fact_type: String,
    pub started_at: Timestamp,
    pub completed_at: Option<Timestamp>,
}

/// A key/value detail of a fact.
#[derive(Debug)]
pub struct FactDetail {
    pub id: i32,
    pub fact_guid: u128,
    pub key: String,
    pub value: String,
}

/// A key/value annotation of a conversation.
#[derive(Debug)]
pub struct Metadata {
    pub id: i32,
    pub conversation_guid: u128,
    pub key: String,
    pub value: String,
}

/// A grouping of conversations ("campaigns", "queues", ...); groups nest
/// through `parent_guid`.
#[derive(Debug)]
pub struct Group {
    pub id: i32,
    pub guid: u128,
    pub tenant_guid: u128,
    pub set: String,
    pub display_name: String,
    pub parent_guid: Option<u128>,
}

/// The user of one tenant that a token speaks for.
#[derive(Debug)]
pub struct UserGuidInfo {
    pub user_guid: String,
}

/// The claims of an identity token. `conversations` maps a tenant GUID to
/// the user that the bearer is in that tenant; each tenant appears once.
#[derive(Debug)]
pub struct Claims {
    pub email: String,
    pub conversations: Vec<(String, UserGuidInfo)>,
    pub sub: String,
    pub exp: u64,
    pub iss: String,
}

/// The index of the entry for `tenant` among `entries`, the first one if
/// several name it.
pub open spec fn tenant_entry_index(entries: Seq<(String, UserGuidInfo)>, tenant: Seq<char>) -> Option<int> {
    if exists|i: int| 0 <= i < entries.len() && #[trigger] entries[i].0@ == tenant {
        Some(choose|i: int|
            0 <= i < entries.len() && #[trigger] entries[i].0@ == tenant && forall|j: int|
                0 <= j < i ==> entries[j].0@ != tenant)
    } else {
        None
    }
}

impl Claims {
    /// Each tenant appears once, as in the token's JSON object.
    pub open spec fn well_formed(self) -> bool {
        forall|i: int, j: int|
            0 <= i < j < self.conversations@.len() ==> #[trigger] self.conversations@[i].0@
                != #[trigger] self.conversations@[j].0@
    }

    /// In well-formed claims, the user entry of a tenant is the one listed
    /// with it, wherever it stands.
    pub proof fn lemma_user_for_listed_entry(self, i: int)
        requires
            self.well_formed(),
            0 <= i < self.conversations@.len(),
        ensures
            self.user_for(self.conversations@[i].0@) == Some(self.conversations@[i].1),
    {
        let es = self.conversations@;
        let t = es[i].0@;
        let k = tenant_entry_index(es, t)->0;
        assert(k == i) by {
            if k < i {
                assert(es[k].0@ != es[i].0@);
            } else if k > i {
                assert(es[i].0@ != es[k].0@);
            }
        }
    }

    /// The tenant GUIDs that the token gives access to.
    pub open spec fn tenants(self) -> Set<Seq<char>> {
        Set::new(|t: Seq<char>| exists|i: int| 0 <= i < self.conversations@.len() && #[trigger] self.conversations@[i].0@ == t)
    }

    /// The user entry that the token holds for `tenant`.
    pub open spec fn user_for(self, tenant: Seq<char>) -> Option<UserGuidInfo> {
        match tenant_entry_index(self.conversations@, tenant) {
            Some(i) => Some(self.conversations@[i].1),
            None => None,
        }
    }

    /// Whether the token gives access to `tenant`.
    pub fn has_tenant(&self, tenant: &String) -> (r: bool)
        ensures
            r == self.tenants().contains(tenant@),
    {
        self.user_guid_for(tenant).is_some()
    }

    /// The user entry for `tenant`, if the token holds one.
    pub fn user_guid_for(&self, tenant: &String) -> (r: Option<&UserGuidInfo>)
        ensures
            match self.user_for(tenant@) {
                Some(u) => r == Some(&u),
                None => r is None,
            },
            r is Some <==> self.tenants().contains(tenant@),
    {
        let n = self.conversations.len();
        let mut i: usize = 0;
        while i < n
            invariant
                n == self.conversations@.len(),
                i <= n,
                forall|j: int| 0 <= j < i ==> self.conversations@[j].0@ != tenant@,
            decreases n - i,
        {
            if self.conversations[i].0 == *tenant {
                proof {
                    let ghost es = self.conversations@;
                    assert(0 <= i < es.len() && es[i as int].0@ == tenant@);
                    let k = tenant_entry_index(es, tenant@)->0;
                    assert(k == i as int) by {
                        if k < i {
                        } else if k > i {
                        }
                    }
                    assert(self.tenants().contains(tenant@));
                }
                return Some(&self.conversations[i].1);
            }
            i += 1;
        }
        proof {
            assert(!self.tenants().contains(tenant@));
        }
        None
    }
}

/// The client configuration of a tenant, as served to the front end.
#[derive(Debug)]
pub struct TenantConfig {
    pub display_name: String,
    pub stun_servers: Vec<String>,
    pub keycloak_url: String,
    pub keycloak_realm: String,
    pub keycloak_client: String,
    pub sentry_dsn: String,
    pub manager_url: String,
    pub quality: String,
}

/// A conversation with its parties, events and annotations.
#[derive(Debug)]
pub struct ConversationResponse {
    pub guid: u128,
    pub destination: String,
    pub tenant_guid: u128,
    pub started_at: Timestamp,
    pub completed_at: Option<Timestamp>,
    pub participants: Vec<ParticipantResponse>,
    pub facts: Vec<FactResponse>,
    pub metadata: Vec<MetadataResponse>,
    pub group: Option<GroupResponse>,
}

/// A party of a conversation with its details.
#[derive(Debug)]
pub struct ParticipantResponse {
    pub display_name: Option<String>,
    pub role: String,
    pub started_at: Timestamp,
    pub completed_at: Option<Timestamp>,
    pub details: Vec<DetailResponse>,
}

/// An event of a conversation with its details; served with its type
/// under the name `type`.
#[derive(Debug)]
pub struct FactResponse {
    pub fact_type: String,
    pub started_at: Timestamp,
    pub completed_at: Option<Timestamp>,
    pub details: Vec<DetailResponse>,
}

/// A key/value detail.
#[derive(Debug)]
pub struct DetailResponse {
    pub key: String,
    pub value: String,
}

/// A key/value annotation.
#[derive(Debug)]
pub struct MetadataResponse {
    pub key: String,
    pub value: String,
}

/// A group with the chain of groups nested below it.
#[derive(Debug)]
pub struct GroupResponse {
    pub set: String,
    pub display_name: String,
    pub child: Option<Box<GroupResponse>>,
}

} // verus!
