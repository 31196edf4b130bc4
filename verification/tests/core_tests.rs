use backend_conversations::api::{
    found_conversation, object_url, query_integer, recordings_bucket, stream_started, tenant_access,
    upload_answer, upload_keys, waveform_command_args, waveform_key, AppError,
};
use backend_conversations::config::tenant_config;
use backend_conversations::database::{
    conversation_response, descend_groups, fact_details, fact_response, group_response, metadata_responses,
    nest_groups, page_window, participant_details, participant_response, DEFAULT_PAGE_LIMIT,
};
use backend_conversations::json::{JsonNumber, JsonValue};
use backend_conversations::models::{
    Claims, Conversation, Fact, FactDetail, Group, GroupResponse, Metadata, Participant,
    ParticipantDetail, Tenant, Timestamp, UserGuidInfo,
};
use backend_conversations::text::{concat2, concat3, owned, split_non_empty};

fn s(x: &str) -> String {
    x.to_string()
}

fn ts(seconds: i64) -> Timestamp {
    Timestamp { seconds, nanos: 105_000_000 }
}

fn tenant(stun: &str) -> Tenant {
    Tenant {
        id: 1,
        guid: 0x0b816d6b898911eca00d02a7681a3548,
        hostname: s("tenant1.myCompany.app"),
        display_name: s("Tenant One"),
        keycloak_url: s("https://id.development.myCompany.dev"),
        keycloak_realm: s("myCompanyapp"),
        keycloak_client: s("conversations-app"),
        manager_url: s("https://manager.example"),
        quality: s("high"),
        stun_servers: s(stun),
    }
}

fn group(name: &str, set: &str) -> Group {
    Group {
        id: 1,
        guid: 7,
        tenant_guid: 9,
        set: s(set),
        display_name: s(name),
        parent_guid: None,
    }
}

#[test]
fn split_keeps_non_empty_fields_in_order() {
    assert_eq!(split_non_empty("a,,bc", ','), vec![s("a"), s("bc")]);
    assert_eq!(split_non_empty("", ','), Vec::<String>::new());
    assert_eq!(split_non_empty(",,,", ','), Vec::<String>::new());
    assert_eq!(split_non_empty("stun:one:3478", ','), vec![s("stun:one:3478")]);
    assert_eq!(split_non_empty("ä,ö,", ','), vec![s("ä"), s("ö")]);
}

#[test]
fn split_then_join_gives_the_list_back() {
    let servers = vec![s("stun:a.example:3478"), s("stun:b.example:19302")];
    let joined = servers.join(",");
    assert_eq!(split_non_empty(&joined, ','), servers);
}

#[test]
fn text_concatenation() {
    assert_eq!(owned("x"), "x");
    assert_eq!(concat2("ab", "cd"), "abcd");
    assert_eq!(concat3("a", "", "c"), "ac");
}

#[test]
fn config_of_a_tenant() {
    let c = tenant_config(tenant("stun:a:3478,,stun:b:3478"), s("https://sentry.example/1"));
    assert_eq!(c.display_name, "Tenant One");
    assert_eq!(c.stun_servers, vec![s("stun:a:3478"), s("stun:b:3478")]);
    assert_eq!(c.keycloak_url, "https://id.development.myCompany.dev/auth");
    assert_eq!(c.keycloak_realm, "myCompanyapp");
    assert_eq!(c.keycloak_client, "conversations-app");
    assert_eq!(c.sentry_dsn, "https://sentry.example/1");
    assert_eq!(c.manager_url, "https://manager.example");
    assert_eq!(c.quality, "high");
}

#[test]
fn config_without_stun_servers() {
    let c = tenant_config(tenant(""), String::new());
    assert!(c.stun_servers.is_empty());
    assert_eq!(c.sentry_dsn, "");
}

#[test]
fn page_window_defaults() {
    assert_eq!(page_window(None, None), (50, 0));
    assert_eq!(page_window(Some(10), Some(20)), (10, 20));
    assert_eq!(page_window(None, Some(-3)), (DEFAULT_PAGE_LIMIT, -3));
}

#[test]
fn details_keep_order() {
    let ds = vec![
        ParticipantDetail { id: 1, participant_guid: 2, key: s("address"), value: s("tel:+31612345678") },
        ParticipantDetail { id: 2, participant_guid: 2, key: s("k2"), value: s("v2") },
    ];
    let out = participant_details(ds);
    assert_eq!(out.len(), 2);
    assert_eq!((out[0].key.as_str(), out[0].value.as_str()), ("address", "tel:+31612345678"));
    assert_eq!((out[1].key.as_str(), out[1].value.as_str()), ("k2", "v2"));
    assert!(participant_details(vec![]).is_empty());

    let fs = vec![
        FactDetail { id: 1, fact_guid: 3, key: s("transfer_destination"), value: s("+31612345680") },
    ];
    let out = fact_details(fs);
    assert_eq!(out.len(), 1);
    assert_eq!(out[0].key, "transfer_destination");
    assert_eq!(out[0].value, "+31612345680");

    let ms = vec![
        Metadata { id: 1, conversation_guid: 4, key: s("campaign_id"), value: s("1") },
        Metadata { id: 2, conversation_guid: 4, key: s("queue_name"), value: s("Queue Alpha 1") },
        Metadata { id: 3, conversation_guid: 4, key: s("strategy"), value: s("inbound") },
    ];
    let out = metadata_responses(ms);
    let pairs: Vec<(String, String)> = out.into_iter().map(|m| (m.key, m.value)).collect();
    assert_eq!(
        pairs,
        vec![(s("campaign_id"), s("1")), (s("queue_name"), s("Queue Alpha 1")), (s("strategy"), s("inbound"))]
    );
}

#[test]
fn responses_carry_their_records() {
    let p = Participant {
        id: 1,
        guid: 2,
        conversation_guid: 3,
        display_name: Some(s("Bob")),
        role: s("agent"),
        started_at: ts(1647429341),
        completed_at: None,
    };
    let pr = participant_response(p, vec![ParticipantDetail { id: 1, participant_guid: 2, key: s("address"), value: s("a") }]);
    assert_eq!(pr.display_name.as_deref(), Some("Bob"));
    assert_eq!(pr.role, "agent");
    assert_eq!(pr.started_at, ts(1647429341));
    assert_eq!(pr.completed_at, None);
    assert_eq!(pr.details.len(), 1);

    let f = Fact {
        id: 1,
        guid: 5,
        conversation_guid: 3,
        fact_type: s("switch"),
        started_at: ts(1647429941),
        completed_at: Some(ts(1647429941)),
    };
    let fr = fact_response(f, vec![]);
    assert_eq!(fr.fact_type, "switch");
    assert_eq!(fr.completed_at, Some(ts(1647429941)));
    assert!(fr.details.is_empty());

    let c = Conversation {
        id: 1,
        guid: 3,
        tenant_guid: 9,
        destination: s("+31612345678"),
        started_at: ts(1647429341),
        completed_at: Some(ts(1647429941)),
    };
    let cr = conversation_response(c, vec![pr], vec![fr], vec![]);
    assert_eq!(cr.guid, 3);
    assert_eq!(cr.tenant_guid, 9);
    assert_eq!(cr.destination, "+31612345678");
    assert_eq!(cr.participants.len(), 1);
    assert_eq!(cr.facts.len(), 1);
    assert!(cr.metadata.is_empty());
    assert!(cr.group.is_none());
}

fn depth(g: &Option<Box<GroupResponse>>) -> usize {
    match g {
        Some(b) => 1 + depth(&b.child),
        None => 0,
    }
}

#[test]
fn groups_nest_in_order() {
    let chain = nest_groups(vec![group("Queue Alpha 1", "queues"), group("Team 1", "teams")]);
    assert_eq!(depth(&chain), 2);
    let first = chain.as_ref().unwrap();
    assert_eq!(first.display_name, "Queue Alpha 1");
    assert_eq!(first.set, "queues");
    let second = first.child.as_ref().unwrap();
    assert_eq!(second.display_name, "Team 1");
    assert!(second.child.is_none());
    assert!(nest_groups(vec![]).is_none());

    let root = group_response(group("Campaign Alpha 1", "campaigns"), vec![group("Queue Alpha 1", "queues")]);
    assert_eq!(root.set, "campaigns");
    assert_eq!(root.display_name, "Campaign Alpha 1");
    assert_eq!(root.child.as_ref().unwrap().display_name, "Queue Alpha 1");
    assert_eq!(depth(&root.child), 1);
}

fn claims_for(tenants: &[&str]) -> Claims {
    Claims {
        email: s("e"),
        conversations: tenants
            .iter()
            .map(|t| (t.to_string(), UserGuidInfo { user_guid: format!("u-{}", t) }))
            .collect(),
        sub: s("s"),
        exp: 0,
        iss: s("i"),
    }
}

#[test]
fn tenant_access_uses_simple_guid() {
    let guid: u128 = 0x0b816d6b898911eca00d02a7681a3548;
    let claims = claims_for(&["dcd5977277fd8cc63acf5f6d6d61e135", "0b816d6b898911eca00d02a7681a3548"]);
    match tenant_access(Some(&claims), guid) {
        Ok(u) => assert_eq!(u.user_guid, "u-0b816d6b898911eca00d02a7681a3548"),
        Err(e) => panic!("unexpected {:?}", e),
    }
    let hyphenated = claims_for(&["0b816d6b-8989-11ec-a00d-02a7681a3548"]);
    assert!(matches!(tenant_access(Some(&hyphenated), guid), Err(AppError::Unauthorized)));
    assert!(matches!(tenant_access(None, guid), Err(AppError::Unauthorized)));
}

#[test]
fn error_answers() {
    assert_eq!((AppError::Database(s("x")).status(), AppError::Database(s("x")).body()), (500, s("Database error")));
    assert_eq!((AppError::S3Error(s("x")).status(), AppError::S3Error(s("x")).body()), (500, s("Storage error")));
    assert_eq!((AppError::NotFound.status(), AppError::NotFound.body()), (404, s("Resource not found")));
    assert_eq!((AppError::Unauthorized.status(), AppError::Unauthorized.body()), (401, s("Unauthorized")));
}

#[test]
fn missing_conversation_is_not_found() {
    assert!(matches!(found_conversation(None), Err(AppError::NotFound)));
    let c = Conversation {
        id: 1,
        guid: 3,
        tenant_guid: 9,
        destination: s("d"),
        started_at: ts(0),
        completed_at: None,
    };
    let cr = conversation_response(c, vec![], vec![], vec![]);
    assert_eq!(found_conversation(Some(cr)).unwrap().guid, 3);
}

#[test]
fn recording_names_and_addresses() {
    assert_eq!(recordings_bucket(None), "voicelogs");
    assert_eq!(recordings_bucket(Some(s("other"))), "other");
    assert_eq!(waveform_key("abc.wav"), "abc.wav.json");
    let (audio, wave) = upload_keys(0x00112233445566778899aabbccddeeff);
    assert_eq!(audio, "00112233-4455-6677-8899-aabbccddeeff.wav");
    assert_eq!(wave, "00112233-4455-6677-8899-aabbccddeeff.json");
    assert_eq!(object_url("voicelogs", "k.wav"), "https://voicelogs.s3.amazonaws.com/k.wav");
    assert_eq!(
        waveform_command_args("/tmp/a", "/tmp/b"),
        vec![s("-i"), s("/tmp/a"), s("-o"), s("/tmp/b"), s("-b"), s("8")]
    );
}

fn members(v: &JsonValue) -> Vec<(String, String)> {
    match v {
        JsonValue::Object(ms) => ms
            .iter()
            .map(|(k, v)| match v {
                JsonValue::Str(t) => (k.clone(), t.clone()),
                _ => panic!("not a string"),
            })
            .collect(),
        _ => panic!("not an object"),
    }
}

#[test]
fn json_answers() {
    assert_eq!(
        members(&stream_started(0x0b816d6b898911eca00d02a7681a3548)),
        vec![
            (s("stream_id"), s("0b816d6b-8989-11ec-a00d-02a7681a3548")),
            (s("sdp_answer"), s("mock_sdp_answer")),
            (s("status"), s("started")),
        ]
    );
    assert_eq!(
        members(&upload_answer("b", "x.wav", "x.json")),
        vec![
            (s("audio_url"), s("https://b.s3.amazonaws.com/x.wav")),
            (s("waveform_url"), s("https://b.s3.amazonaws.com/x.json")),
        ]
    );
}

#[test]
fn query_integers() {
    let q = JsonValue::Object(vec![
        (s("limit"), JsonValue::Number(JsonNumber { integer: Some(10), text: s("10") })),
        (s("offset"), JsonValue::Str(s("5"))),
        (s("limit"), JsonValue::Number(JsonNumber { integer: Some(99), text: s("99") })),
    ]);
    assert_eq!(query_integer(&q, "limit"), Some(10));
    assert_eq!(query_integer(&q, "offset"), None);
    assert_eq!(query_integer(&q, "missing"), None);
    assert_eq!(query_integer(&JsonValue::Null, "limit"), None);
}

#[test]
fn json_lookups() {
    let v = JsonValue::Object(vec![
        (s("a"), JsonValue::Bool(true)),
        (s("b"), JsonValue::Array(vec![JsonValue::Null])),
        (s("c"), JsonValue::Str(s("t"))),
    ]);
    assert!(matches!(v.get("a"), Some(JsonValue::Bool(true))));
    assert!(v.get("z").is_none());
    assert_eq!(v.get("b").unwrap().as_array().unwrap().len(), 1);
    assert!(v.get("a").unwrap().as_array().is_none());
    assert_eq!(v.get("c").unwrap().as_str().unwrap(), "t");
    assert!(v.get("b").unwrap().as_str().is_none());
    assert!(JsonValue::Str(s("x")).get("a").is_none());
}

#[test]
fn descending_collects_the_chain() {
    let mut chain = Vec::new();
    let mut child = group("Queue Alpha 1", "queues");
    child.guid = 42;
    assert_eq!(descend_groups(&mut chain, Some(child)), Some(42));
    assert_eq!(chain.len(), 1);
    assert_eq!(descend_groups(&mut chain, None), None);
    assert_eq!(chain.len(), 1);
    assert_eq!(chain[0].display_name, "Queue Alpha 1");
}
