//! JSON responses that the admin builds whole: the public health probe
//! and the error envelope of the API. The bodies are written by
//! `serde_json`; what goes into them, the status and the headers are
//! decided here.
use vstd::prelude::*;
use crate::error::{client_text, status_of, AdminError};
use crate::text::{decimal, push_str, push_string, to_owned_string, usize_string};

verus! {

broadcast use vstd::string::group_string_axioms;

/// A scalar member of a JSON object.
#[derive(Debug, Clone)]
pub enum JsonScalar {
    Bool(bool),
    Int(i64),
    Str(String),
}

/// The mathematical shape of a [`JsonScalar`].
pub enum JsonScalarView {
    Bool(bool),
    Int(int),
    Str(Seq<char>),
}

pub open spec fn scalar_view(v: JsonScalar) -> JsonScalarView {
    match v {
        JsonScalar::Bool(b) => JsonScalarView::Bool(b),
        JsonScalar::Int(n) => JsonScalarView::Int(n as int),
        JsonScalar::Str(s) => JsonScalarView::Str(s@),
    }
}

pub open spec fn members_view(m: Seq<(&str, JsonScalar)>) -> Seq<(Seq<char>, JsonScalarView)> {
    m.map_values(|p: (&str, JsonScalar)| (p.0@, scalar_view(p.1)))
}

/// The text `serde_json::to_string` writes for the object with these
/// members (as a `serde_json::Map` holds them), or `None` when it
/// reports an error.
pub uninterp spec fn json_object_text(members: Seq<(Seq<char>, JsonScalarView)>) -> Option<Seq<char>>;

/// Builds a `serde_json::Map` from the members (each scalar as the
/// matching `serde_json::Value`) and writes it with
/// `serde_json::to_string`; an error comes back as `None`.
#[verifier::external_body]
fn serialize_object(members: &[(&str, JsonScalar)]) -> (r: Option<String>)
    ensures
        match r {
            Some(s) => json_object_text(members_view(members@)) == Some(s@),
            None => json_object_text(members_view(members@)) is None,
        },
{
    let mut m = serde_json::Map::new();
    for (k, v) in members {
        let value = match v {
            JsonScalar::Bool(b) => serde_json::Value::Bool(*b),
            JsonScalar::Int(n) => serde_json::Value::from(*n),
            JsonScalar::Str(s) => serde_json::Value::String(s.clone()),
        };
        m.insert(k.to_string(), value);
    }
    serde_json::to_string(&serde_json::Value::Object(m)).ok()
}

/// A response with a JSON body.
#[derive(Debug, Clone)]
pub struct JsonResponse {
    pub status: u16,
    pub body: String,
    pub headers: Vec<(&'static str, &'static str)>,
}

pub open spec fn headers_view(h: Seq<(&'static str, &'static str)>) -> Seq<(Seq<char>, Seq<char>)> {
    h.map_values(|p: (&'static str, &'static str)| (p.0@, p.1@))
}

/// `up` or `down`.
pub open spec fn db_word(db_ok: bool) -> Seq<char> {
    if db_ok { "up"@ } else { "down"@ }
}

/// The probe's members: `ok`, `db`, `version`.
pub open spec fn healthz_members(db_ok: bool, version: Seq<char>) -> Seq<(Seq<char>, JsonScalarView)> {
    seq![
        ("ok"@, JsonScalarView::Bool(db_ok)),
        ("db"@, JsonScalarView::Str(db_word(db_ok))),
        ("version"@, JsonScalarView::Str(version)),
    ]
}

/// The hand-written body used if serialising ever fails.
pub open spec fn healthz_fallback(db_ok: bool) -> Seq<char> {
    "{\"ok\":"@ + (if db_ok { "true"@ } else { "false"@ }) + ",\"db\":\""@ + db_word(db_ok)
        + "\",\"version\":\"unknown\"}"@
}

/// The public liveness probe's response: 200 with the database up,
/// 503 (take the pod out of rotation) with it down; a JSON body with
/// `ok`, `db` and the framework `version`; never cached.
pub fn build_response(db_ok: bool, version: &str) -> (r: JsonResponse)
    ensures
        r.status == (if db_ok { 200u16 } else { 503u16 }),
        r.body@ == match json_object_text(healthz_members(db_ok, version@)) {
            Some(t) => t,
            None => healthz_fallback(db_ok),
        },
        headers_view(r.headers@) == seq![("content-type"@, "application/json"@), ("cache-control"@, "no-store"@)],
{
    let word = if db_ok { "up" } else { "down" };
    let mut members: Vec<(&str, JsonScalar)> = Vec::new();
    members.push(("ok", JsonScalar::Bool(db_ok)));
    members.push(("db", JsonScalar::Str(to_owned_string(word))));
    members.push(("version", JsonScalar::Str(to_owned_string(version))));
    assert(members_view(members@) =~= healthz_members(db_ok, version@));
    let body = match serialize_object(members.as_slice()) {
        Some(s) => s,
        None => {
            let mut s = to_owned_string("{\"ok\":");
            push_str(&mut s, if db_ok { "true" } else { "false" });
            push_str(&mut s, ",\"db\":\"");
            push_str(&mut s, word);
            push_str(&mut s, "\",\"version\":\"unknown\"}");
            s
        },
    };
    let mut headers: Vec<(&'static str, &'static str)> = Vec::new();
    headers.push(("content-type", "application/json"));
    headers.push(("cache-control", "no-store"));
    assert(headers_view(headers@) =~= seq![("content-type"@, "application/json"@), ("cache-control"@, "no-store"@)]);
    JsonResponse { status: if db_ok { 200 } else { 503 }, body, headers }
}

/// The error envelope's members: the client-safe message and the status.
pub open spec fn error_members(e: AdminError) -> Seq<(Seq<char>, JsonScalarView)> {
    seq![("error"@, JsonScalarView::Str(client_text(e))), ("status"@, JsonScalarView::Int(status_of(e) as int))]
}

/// The hand-written envelope used if serialising ever fails.
pub open spec fn error_fallback(status: u16) -> Seq<char> {
    "{\"error\":\"json error envelope serialisation failed\",\"status\":"@ + decimal(status as nat) + "}"@
}

/// The API's error response: the error's status, and the body
/// `{"error": <client message>, "status": <code>}` (internal errors
/// keep their detail out of it).
pub fn json_error(err: &AdminError) -> (r: JsonResponse)
    ensures
        r.status == status_of(*err),
        r.body@ == match json_object_text(error_members(*err)) {
            Some(t) => t,
            None => error_fallback(status_of(*err)),
        },
        headers_view(r.headers@) == seq![("content-type"@, "application/json"@)],
{
    let status = err.status();
    let mut members: Vec<(&str, JsonScalar)> = Vec::new();
    members.push(("error", JsonScalar::Str(err.client_message())));
    members.push(("status", JsonScalar::Int(status as i64)));
    assert(members_view(members@) =~= error_members(*err));
    let body = match serialize_object(members.as_slice()) {
        Some(s) => s,
        None => {
            let mut s = to_owned_string("{\"error\":\"json error envelope serialisation failed\",\"status\":");
            push_string(&mut s, usize_string(status as usize));
            push_str(&mut s, "}");
            s
        },
    };
    let mut headers: Vec<(&'static str, &'static str)> = Vec::new();
    headers.push(("content-type", "application/json"));
    assert(headers_view(headers@) =~= seq![("content-type"@, "application/json"@)]);
    JsonResponse { status, body, headers }
}

/// An internal error's detail never reaches the client: whatever its
/// message, the envelope carries the generic text and status 500.
pub proof fn lemma_internal_detail_stays_server_side(detail: String)
    ensures
        error_members(AdminError::Internal(detail)) == seq![
            ("error"@, JsonScalarView::Str("Internal Server Error"@)),
            ("status"@, JsonScalarView::Int(500)),
        ],
{
}

} // verus!
