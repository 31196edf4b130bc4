//! The decisions of the HTTP endpoints: who may see a tenant's data, how
//! errors are answered, and the names and addresses of stored recordings.
use vstd::prelude::*;

use crate::guid::{guid_simple_text, guid_text, guid_to_simple_string, guid_to_string};
use crate::json::JsonValue;
use crate::models::{Claims, ConversationResponse, UserGuidInfo};
use crate::text::{concat2, concat3, owned};

verus! {

/// Why an endpoint did not answer with its data.
#[derive(Debug)]
pub enum AppError {
    /// The store failed; the failure's text.
    Database(String),
    S3Error(String),
    NotFound,
    Unauthorized,
}

impl AppError {
    /// The HTTP status that answers the error.
    pub open spec fn spec_status(&self) -> u16 {
        match self {
            AppError::Database(_) => 500,
            AppError::S3Error(_) => 500,
            AppError::NotFound => 404,
            AppError::Unauthorized => 401,
        }
    }

    /// The message that the answer's JSON body holds.
    pub open spec fn spec_body(&self) -> Seq<char> {
        match self {
            AppError::Database(_) => "Database error"@,
            AppError::S3Error(_) => "Storage error"@,
            AppError::NotFound => "Resource not found"@,
            AppError::Unauthorized => "Unauthorized"@,
        }
    }

    /// The HTTP status that answers the error.
    pub fn status(&self) -> (r: u16)
        ensures
            r == self.spec_status(),
    {
        match self {
            AppError::Database(_) => 500,
            AppError::S3Error(_) => 500,
            AppError::NotFound => 404,
            AppError::Unauthorized => 401,
        }
    }

    /// The message that the answer's JSON body holds.
    pub fn body(&self) -> (r: String)
        ensures
            r@ == self.spec_body(),
    {
        match self {
            AppError::Database(_) => owned("Database error"),
            AppError::S3Error(_) => owned("Storage error"),
            AppError::NotFound => owned("Resource not found"),
            AppError::Unauthorized => owned("Unauthorized"),
        }
    }
}

/// The user that a request's claims name in the tenant `tenant_guid`.
/// A request without claims, or whose claims do not list the tenant under
/// its GUID in simple form (32 lowercase hexadecimal digits), is
/// `Unauthorized`.
pub fn tenant_access<'a>(claims: Option<&'a Claims>, tenant_guid: u128) -> (r: Result<&'a UserGuidInfo, AppError>)
    ensures
        match claims {
            None => r matches Err(AppError::Unauthorized),
            Some(c) => match c.user_for(guid_simple_text(tenant_guid)) {
                Some(u) => r == Ok::<&UserGuidInfo, AppError>(&u),
                None => r matches Err(AppError::Unauthorized),
            },
        },
        r is Ok <==> (claims matches Some(c) && c.tenants().contains(guid_simple_text(tenant_guid))),
{
    match claims {
        None => Err(AppError::Unauthorized),
        Some(c) => {
            let key = guid_to_simple_string(tenant_guid);
            match c.user_guid_for(&key) {
                Some(u) => Ok(u),
                None => Err(AppError::Unauthorized),
            }
        },
    }
}

/// A looked-up conversation, or `NotFound`.
pub fn found_conversation(conversation: Option<ConversationResponse>) -> (r: Result<ConversationResponse, AppError>)
    ensures
        match conversation {
            Some(c) => r == Ok::<ConversationResponse, AppError>(c),
            None => r matches Err(AppError::NotFound),
        },
{
    match conversation {
        Some(c) => Ok(c),
        None => Err(AppError::NotFound),
    }
}

/// The bucket of recordings: the configured one, `voicelogs` otherwise.
pub fn recordings_bucket(configured: Option<String>) -> (r: String)
    ensures
        match configured {
            Some(b) => r == b,
            None => r@ == "voicelogs"@,
        },
{
    match configured {
        Some(b) => b,
        None => owned("voicelogs"),
    }
}

/// The object key of a recording's waveform: its name with `.json`.
pub fn waveform_key(filename: &str) -> (r: String)
    ensures
        r@ == filename@ + ".json"@,
{
    concat2(filename, ".json")
}

/// The object keys of a new upload with identifier `id`: the recording
/// `<id>.wav` and its waveform `<id>.json`, `<id>` hyphenated.
pub fn upload_keys(id: u128) -> (r: (String, String))
    ensures
        r.0@ == guid_text(id) + ".wav"@,
        r.1@ == guid_text(id) + ".json"@,
{
    let name = guid_to_string(id);
    (concat2(name.as_str(), ".wav"), concat2(name.as_str(), ".json"))
}

/// The public address of an object in a bucket.
pub fn object_url(bucket: &str, key: &str) -> (r: String)
    ensures
        r@ == "https://"@ + bucket@ + ".s3.amazonaws.com/"@ + key@,
{
    let mut r = concat3("https://", bucket, ".s3.amazonaws.com/");
    r.append(key);
    r
}

/// The arguments of the waveform generator for a recording: read
/// `audio_path`, write `json_path`, at 8 bits.
pub fn waveform_command_args(audio_path: &str, json_path: &str) -> (r: Vec<String>)
    ensures
        r.deep_view() == seq!["-i"@, audio_path@, "-o"@, json_path@, "-b"@, "8"@],
{
    let mut r: Vec<String> = Vec::new();
    r.push(owned("-i"));
    r.push(owned(audio_path));
    r.push(owned("-o"));
    r.push(owned(json_path));
    r.push(owned("-b"));
    r.push(owned("8"));
    assert(r.deep_view() =~= seq!["-i"@, audio_path@, "-o"@, json_path@, "-b"@, "8"@]);
    r
}

/// An object with string members, in order.
pub open spec fn string_object(members: Seq<(Seq<char>, Seq<char>)>, v: JsonValue) -> bool {
    &&& v matches JsonValue::Object(ms)
    &&& ms@.len() == members.len()
    &&& forall|i: int| 0 <= i < members.len() ==> (#[trigger] ms@[i]).0@ == members[i].0
        && ms@[i].1.text() == Some(members[i].1)
}

/// The answer to a request to start streaming conversation `guid`.
pub fn stream_started(guid: u128) -> (r: JsonValue)
    ensures
        string_object(
            seq![("stream_id"@, guid_text(guid)), ("sdp_answer"@, "mock_sdp_answer"@), ("status"@, "started"@)],
            r,
        ),
{
    let mut ms: Vec<(String, JsonValue)> = Vec::new();
    ms.push((owned("stream_id"), JsonValue::Str(guid_to_string(guid))));
    ms.push((owned("sdp_answer"), JsonValue::Str(owned("mock_sdp_answer"))));
    ms.push((owned("status"), JsonValue::Str(owned("started"))));
    JsonValue::Object(ms)
}

/// The answer to an upload: the addresses of the stored recording and of
/// its waveform.
pub fn upload_answer(bucket: &str, audio_key: &str, waveform_key: &str) -> (r: JsonValue)
    ensures
        string_object(
            seq![
                ("audio_url"@, "https://"@ + bucket@ + ".s3.amazonaws.com/"@ + audio_key@),
                ("waveform_url"@, "https://"@ + bucket@ + ".s3.amazonaws.com/"@ + waveform_key@),
            ],
            r,
        ),
{
    let mut ms: Vec<(String, JsonValue)> = Vec::new();
    ms.push((owned("audio_url"), JsonValue::Str(object_url(bucket, audio_key))));
    ms.push((owned("waveform_url"), JsonValue::Str(object_url(bucket, waveform_key))));
    JsonValue::Object(ms)
}

/// The integer value of member `key` of a request's query, if it is one.
pub fn query_integer(query: &JsonValue, key: &str) -> (r: Option<i64>)
    ensures
        r == match query.member(key@) {
            Some(v) => v.integer(),
            None => None,
        },
{
    match query.get(key) {
        Some(v) => v.as_i64(),
        None => None,
    }
}

} // verus!
