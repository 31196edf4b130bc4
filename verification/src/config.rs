//! The client configuration that the public `/config` endpoint serves.
use vstd::prelude::*;

use crate::models::{Tenant, TenantConfig};
use crate::text::{concat2, list_entries, split_non_empty, join_fields, lemma_split_join};

verus! {

/// The configuration that the front end of `tenant` receives: its
/// settings as stored, the non-empty entries of its comma-separated STUN
/// server list in order, its identity provider's `/auth` address, and the
/// error reporting address `sentry_dsn`.
pub open spec fn is_config_of(c: TenantConfig, tenant: Tenant, sentry_dsn: Seq<char>) -> bool {
    &&& c.display_name == tenant.display_name
    &&& c.stun_servers.deep_view() == list_entries(tenant.stun_servers@, ',')
    &&& c.keycloak_url@ == tenant.keycloak_url@ + "/auth"@
    &&& c.keycloak_realm == tenant.keycloak_realm
    &&& c.keycloak_client == tenant.keycloak_client
    &&& c.sentry_dsn@ == sentry_dsn
    &&& c.manager_url == tenant.manager_url
    &&& c.quality == tenant.quality
}

/// Builds the front-end configuration of `tenant`.
pub fn tenant_config(tenant: Tenant, sentry_dsn: String) -> (c: TenantConfig)
    ensures
        is_config_of(c, tenant, sentry_dsn@),
{
    let stun_servers = split_non_empty(tenant.stun_servers.as_str(), ',');
    let keycloak_url = concat2(tenant.keycloak_url.as_str(), "/auth");
    TenantConfig {
        display_name: tenant.display_name,
        stun_servers,
        keycloak_url,
        keycloak_realm: tenant.keycloak_realm,
        keycloak_client: tenant.keycloak_client,
        sentry_dsn,
        manager_url: tenant.manager_url,
        quality: tenant.quality,
    }
}

/// The served configuration copies the tenant's stored settings as they
/// are: name, realm, client, manager address and quality; the identity
/// provider address is the stored one followed by `/auth`, and the error
/// reporting address is the one given.
pub proof fn lemma_config_copies_settings(c: TenantConfig, tenant: Tenant, sentry_dsn: Seq<char>)
    requires
        is_config_of(c, tenant, sentry_dsn),
    ensures
        c.display_name@ == tenant.display_name@,
        c.keycloak_realm@ == tenant.keycloak_realm@,
        c.keycloak_client@ == tenant.keycloak_client@,
        c.manager_url@ == tenant.manager_url@,
        c.quality@ == tenant.quality@,
        c.sentry_dsn@ == sentry_dsn,
        c.keycloak_url@.len() == tenant.keycloak_url@.len() + 5,
        c.keycloak_url@.take(tenant.keycloak_url@.len() as int) == tenant.keycloak_url@,
        c.keycloak_url@.skip(tenant.keycloak_url@.len() as int) == "/auth"@,
{
    reveal_strlit("/auth");
    let u = tenant.keycloak_url@;
    assert((u + "/auth"@).take(u.len() as int) =~= u);
    assert((u + "/auth"@).skip(u.len() as int) =~= "/auth"@);
}

/// A tenant whose STUN server list was stored as non-empty addresses
/// without commas, joined by commas, gets exactly those addresses back.
pub proof fn lemma_config_round_trips_stun_servers(
    c: TenantConfig,
    tenant: Tenant,
    sentry_dsn: Seq<char>,
    servers: Seq<Seq<char>>,
)
    requires
        is_config_of(c, tenant, sentry_dsn),
        servers.len() > 0,
        forall|k: int| 0 <= k < servers.len() ==> (#[trigger] servers[k]).len() > 0 && !servers[k].contains(','),
        tenant.stun_servers@ == join_fields(servers, ','),
    ensures
        c.stun_servers.deep_view() == servers,
{
    lemma_split_join(servers, ',');
    lemma_non_empty_keeps_non_empty(servers);
}

/// Dropping empty entries leaves a list without empty entries as it is.
proof fn lemma_non_empty_keeps_non_empty(parts: Seq<Seq<char>>)
    requires
        forall|k: int| 0 <= k < parts.len() ==> (#[trigger] parts[k]).len() > 0,
    ensures
        crate::text::non_empty(parts) == parts,
    decreases parts.len(),
{
    if parts.len() > 0 {
        let init = parts.drop_last();
        assert forall|k: int| 0 <= k < init.len() implies (#[trigger] init[k]).len() > 0 by {
            assert(init[k] == parts[k]);
        }
        lemma_non_empty_keeps_non_empty(init);
        assert(parts[parts.len() - 1].len() > 0);
        assert(init.push(parts.last()) =~= parts);
    }
}

} // verus!
