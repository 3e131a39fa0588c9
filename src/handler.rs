//! The execution engine: from the reply to a request to a typed outcome or a
//! structured error.
use vstd::prelude::*;
use crate::builder::PostgrestQuery;
use crate::headers::{pairs_view, set_header, with_header};
use crate::builder::opt_view;
use crate::json::{json_members, json_string, json_text_parses, object_members, parse_json_text, string_text};
use crate::request::{BodyModel, PostgrestRequest, RequestBody, RequestModel};

verus! {

#[verifier::external_type_specification]
#[verifier::external_body]
pub struct ExReqwestError(reqwest::Error);

/// Sent as `User-Agent` with every request.
pub const USER_AGENT: &'static str = "postgrest-query/0.1.0";

/// The server's JSON error envelope; PostgREST may leave out any member.
pub struct PostgrestErrorResponse {
    pub hint: Option<String>,
    pub details: Option<serde_json::Value>,
    pub code: Option<String>,
    pub message: Option<String>,
}

/// Why an error body could not be read.
pub enum DecodeError {
    /// The body is not a JSON object.
    Json(serde_json::Error),
    /// The body is a JSON object but not an error envelope.
    NotAnErrorEnvelope,
}

/// The two kinds of failure: the server's structured error, or a request
/// that was not sent, got no reply, or got a body that could not be read.
pub enum PostgrestError {
    PostgrestErrorResponse(PostgrestErrorResponse),
    ReqwestError(reqwest::Error),
    DecodeError(DecodeError),
}

/// What the transport brought back: the status and the raw body.
pub struct HttpReply {
    pub status: u16,
    pub body: Vec<u8>,
}

/// A successful outcome: the number of rows an insert sent, or the body the
/// server returned, to be read as the caller's result type.
pub enum PostgrestOutput {
    RowCount(usize),
    Body(Vec<u8>),
}

/// A 2xx status.
pub open spec fn is_success(status: u16) -> bool {
    200 <= status < 300
}

/// The number of rows a request sends: the length of its list of rows, and
/// none where its body is no list.
pub open spec fn rows_sent(m: RequestModel) -> nat {
    match m.body {
        Some(BodyModel::Rows(rows)) => rows.len(),
        _ => 0,
    }
}

/// The JSON text of the member `key` of an object.
pub open spec fn member(ms: Seq<(Seq<char>, Seq<char>)>, key: Seq<char>) -> Option<Seq<char>>
    decreases ms.len(),
{
    if ms.len() == 0 {
        None
    } else if ms[0].0 == key {
        Some(ms[0].1)
    } else {
        member(ms.drop_first(), key)
    }
}

pub open spec fn is_null(raw: Seq<char>) -> bool {
    raw == "null"@
}

/// A text member of an envelope: absent or `null`, or a JSON string.
pub open spec fn text_member_ok(ms: Seq<(Seq<char>, Seq<char>)>, key: Seq<char>) -> bool {
    match member(ms, key) {
        None => true,
        Some(raw) => is_null(raw) || json_string(raw) is Some,
    }
}

/// The text of a text member; `None` where it is absent or `null`.
pub open spec fn text_member(ms: Seq<(Seq<char>, Seq<char>)>, key: Seq<char>) -> Option<Seq<char>> {
    match member(ms, key) {
        None => None,
        Some(raw) => if is_null(raw) {
            None
        } else {
            json_string(raw)
        },
    }
}

/// The `details` member is present and not `null`.
pub open spec fn has_details(ms: Seq<(Seq<char>, Seq<char>)>) -> bool {
    member(ms, "details"@) matches Some(raw) && !is_null(raw)
}

/// `b` is an error envelope: a JSON object whose `hint`, `code` and
/// `message` are each a string, `null` or absent.
pub open spec fn is_envelope(b: Seq<u8>) -> bool {
    match json_members(b) {
        Some(ms) => {
            &&& text_member_ok(ms, "hint"@)
            &&& text_member_ok(ms, "code"@)
            &&& text_member_ok(ms, "message"@)
            &&& has_details(ms) ==> json_text_parses(member(ms, "details"@).unwrap())
        },
        None => false,
    }
}

/// `e` holds the members of the envelope `b`: each text member's text, or
/// `None` where it is absent or `null`; `details` where it is present and
/// not `null`.
pub open spec fn envelope_of(b: Seq<u8>, e: PostgrestErrorResponse) -> bool {
    let ms = json_members(b).unwrap();
    &&& opt_view(e.hint) == text_member(ms, "hint"@)
    &&& opt_view(e.code) == text_member(ms, "code"@)
    &&& opt_view(e.message) == text_member(ms, "message"@)
    &&& e.details is Some == has_details(ms)
}

/// The outcome is the server's error read from the body `b`, where `b` is
/// an envelope, and otherwise a body that could not be read.
pub open spec fn failure_outcome(b: Seq<u8>, r: Result<PostgrestOutput, PostgrestError>) -> bool {
    if is_envelope(b) {
        r matches Err(PostgrestError::PostgrestErrorResponse(e)) && envelope_of(b, e)
    } else {
        r matches Err(PostgrestError::DecodeError(_))
    }
}

fn find_member<'a>(members: &'a Vec<(String, String)>, key: &str) -> (r: Option<&'a String>)
    ensures
        r matches Some(raw) ==> member(pairs_view(members@), key@) == Some(raw@),
        r is None ==> member(pairs_view(members@), key@) is None,
{
    let ghost ms = pairs_view(members@);
    let wanted = String::from_str(key);
    let mut i: usize = 0;
    assert(ms.subrange(0, ms.len() as int) =~= ms);
    while i < members.len()
        invariant
            i <= members.len(),
            ms == pairs_view(members@),
            wanted@ == key@,
            member(ms, key@) == member(ms.subrange(i as int, ms.len() as int), key@),
        decreases members.len() - i,
    {
        let ghost rest = ms.subrange(i as int, ms.len() as int);
        assert(rest.drop_first() =~= ms.subrange(i + 1, ms.len() as int));
        assert(rest[0] == ms[i as int]);
        assert(ms[i as int] == (members@[i as int].0@, members@[i as int].1@));
        if members[i].0 == wanted {
            return Some(&members[i].1);
        }
        i = i + 1;
    }
    None
}

fn raw_is_null(raw: &String) -> (r: bool)
    ensures
        r == is_null(raw@),
{
    *raw == String::from_str("null")
}

/// A text member of an envelope: `Ok(None)` where it is absent or `null`,
/// its text where it is a string, and an error otherwise.
fn text_member_of(members: &Vec<(String, String)>, key: &str) -> (r: Result<Option<String>, DecodeError>)
    ensures
        r is Ok == text_member_ok(pairs_view(members@), key@),
        r matches Ok(t) ==> opt_view(t) == text_member(pairs_view(members@), key@),
        r matches Err(e) ==> e is NotAnErrorEnvelope,
{
    match find_member(members, key) {
        None => Ok(None),
        Some(raw) => {
            if raw_is_null(raw) {
                Ok(None)
            } else {
                match string_text(raw.as_str()) {
                    Some(t) => Ok(Some(t)),
                    None => Err(DecodeError::NotAnErrorEnvelope),
                }
            }
        },
    }
}

/// Reads the server's error envelope from a body.
pub fn decode_error_body(body: &Vec<u8>) -> (r: Result<PostgrestErrorResponse, DecodeError>)
    ensures
        r is Ok == is_envelope(body@),
        r matches Ok(e) ==> envelope_of(body@, e),
        json_members(body@) is None ==> r matches Err(DecodeError::Json(_)),
        json_members(body@) is Some && !is_envelope(body@) ==> r matches Err(DecodeError::NotAnErrorEnvelope),
{
    let members = match object_members(body.as_slice()) {
        Ok(m) => m,
        Err(e) => return Err(DecodeError::Json(e)),
    };
    let ghost ms = pairs_view(members@);
    let hint = text_member_of(&members, "hint")?;
    let code = text_member_of(&members, "code")?;
    let message = text_member_of(&members, "message")?;
    let details = match find_member(&members, "details") {
        None => None,
        Some(raw) => if raw_is_null(raw) {
            None
        } else {
            match parse_json_text(raw.as_str()) {
                Ok(v) => Some(v),
                Err(_) => return Err(DecodeError::NotAnErrorEnvelope),
            }
        },
    };
    Ok(PostgrestErrorResponse { hint, details, code, message })
}

/// The execution engine for one request; it is used once.
pub struct PostgrestHandler {
    pub request: PostgrestRequest,
}

impl PostgrestHandler {
    pub fn new(request: PostgrestRequest) -> (r: Self)
        ensures
            r.request@ == request@,
    {
        PostgrestHandler { request }
    }

    /// The headers sent: the request's own, with `User-Agent` naming this library.
    pub fn outgoing_headers(&self) -> (r: Vec<(String, String)>)
        ensures
            pairs_view(r@) == with_header(self.request@.headers, "User-Agent"@, USER_AGENT@),
    {
        set_header(self.request.headers(), "User-Agent", String::from_str(USER_AGENT))
    }

    /// Decides the outcome of the request from what the transport brought
    /// back. An insert succeeds on any 2xx reply whatever its body: one row
    /// for a single row, and for a list the number of rows sent. Other
    /// operations hand on the body, to be read as the caller's result type.
    /// Any other status is the server's error.
    pub fn finish(self, response: Result<HttpReply, reqwest::Error>) -> (r: Result<PostgrestOutput, PostgrestError>)
        ensures
            response matches Err(e) ==> r == Err::<PostgrestOutput, PostgrestError>(PostgrestError::ReqwestError(e)),
            response matches Ok(reply) ==> if is_success(reply.status) {
                match self.request@.query_type {
                    PostgrestQuery::Create => r matches Ok(PostgrestOutput::RowCount(n)) && n == 1,
                    PostgrestQuery::CreateMany => r matches Ok(PostgrestOutput::RowCount(n)) && n == rows_sent(self.request@),
                    _ => r matches Ok(PostgrestOutput::Body(b)) && b@ == reply.body@,
                }
            } else {
                failure_outcome(reply.body@, r)
            },
    {
        let reply = match response {
            Ok(reply) => reply,
            Err(e) => return Err(PostgrestError::ReqwestError(e)),
        };
        if 200 <= reply.status && reply.status < 300 {
            match self.request.query_type() {
                PostgrestQuery::Create => Ok(PostgrestOutput::RowCount(1)),
                PostgrestQuery::CreateMany => {
                    let rows = match self.request.body() {
                        Some(RequestBody::Rows(v)) => v.len(),
                        _ => 0,
                    };
                    Ok(PostgrestOutput::RowCount(rows))
                },
                _ => Ok(PostgrestOutput::Body(reply.body)),
            }
        } else {
            match decode_error_body(&reply.body) {
                Ok(e) => Err(PostgrestError::PostgrestErrorResponse(e)),
                Err(e) => Err(PostgrestError::DecodeError(e)),
            }
        }
    }
}

} // verus!
