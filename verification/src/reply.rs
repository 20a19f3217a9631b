use vstd::prelude::*;
use vstd::utf8::encode_utf8;
use crate::codec::{
    base64_bytes, base64_decode, header_name_accepted, header_value_accepted, valid_header_name,
    valid_header_value,
};
use crate::error::{ProxyError, ERROR_STATUS};
use crate::json::{find_member, member, text_of, JsonValue};
use crate::text_map::{
    distinct_keys, last_wins, lemma_last_occurrence_wins, lemma_last_wins_keys, pairs_view, TextMap,
    TextPairs,
};

verus! {

/// The reply document of the backend.
#[derive(Debug)]
pub struct BackendReply {
    pub status_code: i64,
    pub headers: TextMap,
    pub body: String,
    /// Absent counts as `false`.
    pub is_base64_encoded: Option<bool>,
}

/// The response handed back to the caller.
#[derive(Debug)]
pub struct OutgoingResponse {
    pub status: u16,
    pub headers: TextMap,
    pub body: Vec<u8>,
}

/// What the backend call came to.
#[derive(Debug)]
pub enum BackendOutcome {
    /// No complete answer: connection refused, timeout, DNS or TLS failure.
    Unreachable,
    /// An answer with its HTTP status; `document` is the JSON document its
    /// body holds, `None` where the body is no JSON at all.
    Answered { status: u16, document: Option<JsonValue> },
}

/// The bytes a reply's body stands for: decoded from base64 where the reply
/// says so, else the UTF-8 bytes of the text. `None` where the reply claims
/// base64 and the text is none.
pub open spec fn reply_body(body: Seq<char>, is_base64_encoded: Option<bool>) -> Option<Seq<u8>> {
    if is_base64_encoded == Some(true) {
        base64_bytes(body)
    } else {
        Some(encode_utf8(body))
    }
}

/// A status code that a response can carry.
pub open spec fn valid_status(code: i64) -> bool {
    100 <= code <= 599
}

/// A server-error status.
pub open spec fn is_server_error(status: u16) -> bool {
    500 <= status <= 599
}

/// Every name and every value is well-formed.
pub open spec fn valid_headers(headers: Map<Seq<char>, Seq<char>>) -> bool {
    forall|name: Seq<char>| #[trigger]
        headers.contains_key(name) ==> valid_header_name(name) && valid_header_value(
            headers[name],
        )
}

/// Why no response can be made of the parts of a reply, if none can: the
/// body is looked at first, then the status, then the headers.
pub open spec fn reconstruction_failure(
    status_code: i64,
    headers: Map<Seq<char>, Seq<char>>,
    body: Seq<char>,
    is_base64_encoded: Option<bool>,
) -> Option<ProxyError> {
    if reply_body(body, is_base64_encoded).is_none() {
        Some(ProxyError::InvalidBodyEncoding)
    } else if !valid_status(status_code) {
        Some(ProxyError::InvalidStatusCode)
    } else if !valid_headers(headers) {
        Some(ProxyError::InvalidResponseHeader)
    } else {
        None
    }
}

/// `response` carries the status, every header and the decoded body of the
/// parts of a reply.
pub open spec fn is_response(
    response: OutgoingResponse,
    status_code: i64,
    headers: Map<Seq<char>, Seq<char>>,
    body: Seq<char>,
    is_base64_encoded: Option<bool>,
) -> bool {
    &&& response.status == status_code
    &&& response.headers@ == headers
    &&& Some(response.body@) == reply_body(body, is_base64_encoded)
}

/// Why no response can be made of a reply, if none can.
pub open spec fn reply_failure(reply: BackendReply) -> Option<ProxyError> {
    reconstruction_failure(reply.status_code, reply.headers@, reply.body@, reply.is_base64_encoded)
}

/// `response` carries the status, every header and the decoded body of `reply`.
pub open spec fn is_response_of(response: OutgoingResponse, reply: BackendReply) -> bool {
    is_response(response, reply.status_code, reply.headers@, reply.body@, reply.is_base64_encoded)
}

/// Every member holds a text.
pub open spec fn all_text(members: Seq<(String, JsonValue)>) -> bool {
    forall|i: int| 0 <= i < members.len() ==> (#[trigger] members[i]).1 is Text
}

/// The members as pairs of text.
pub open spec fn member_texts(members: Seq<(String, JsonValue)>) -> TextPairs {
    Seq::new(members.len(), |i: int| (members[i].0@, text_of(members[i].1)))
}

/// The `statusCode` of a reply document: an integer.
pub open spec fn field_status(top: Seq<(String, JsonValue)>) -> Option<i64> {
    match member(top, "statusCode"@) {
        Some(JsonValue::Integer(n)) => Some(n),
        _ => None,
    }
}

/// The `headers` of a reply document: an object whose members are all text.
pub open spec fn field_headers(top: Seq<(String, JsonValue)>) -> Option<TextPairs> {
    match member(top, "headers"@) {
        Some(JsonValue::Object(members)) => if all_text(members@) {
            Some(member_texts(members@))
        } else {
            None
        },
        _ => None,
    }
}

/// The `body` of a reply document: a text.
pub open spec fn field_body(top: Seq<(String, JsonValue)>) -> Option<Seq<char>> {
    match member(top, "body"@) {
        Some(JsonValue::Text(s)) => Some(s@),
        _ => None,
    }
}

/// The `isBase64Encoded` of a reply document: a boolean, or nothing where
/// the member is absent or null. `None` where it is anything else.
pub open spec fn field_flag(top: Seq<(String, JsonValue)>) -> Option<Option<bool>> {
    match member(top, "isBase64Encoded"@) {
        None => Some(None),
        Some(JsonValue::Null) => Some(None),
        Some(JsonValue::Bool(b)) => Some(Some(b)),
        _ => None,
    }
}

/// A well-formed reply document: an object with an integer `statusCode`, a
/// `headers` object of texts, a text `body` and, if present, a boolean
/// `isBase64Encoded`. Other members are ignored.
pub open spec fn is_reply_document(document: JsonValue) -> bool {
    document matches JsonValue::Object(top) && {
        &&& field_status(top@).is_some()
        &&& field_headers(top@).is_some()
        &&& field_body(top@).is_some()
        &&& field_flag(top@).is_some()
    }
}

/// `reply` holds what the members of a reply document say.
pub open spec fn is_reply_of(reply: BackendReply, top: Seq<(String, JsonValue)>) -> bool {
    &&& field_status(top) == Some(reply.status_code)
    &&& field_headers(top) matches Some(pairs) && reply.headers@ == last_wins(pairs)
    &&& field_body(top) == Some(reply.body@)
    &&& field_flag(top) == Some(reply.is_base64_encoded)
}

/// Why no response can be made of a reply document, if none can: a document
/// that is not well-formed is malformed, and a well-formed one fails as its
/// parts do.
pub open spec fn document_failure(document: JsonValue) -> Option<ProxyError> {
    match document {
        JsonValue::Object(top) => if is_reply_document(document) {
            reconstruction_failure(
                field_status(top@).unwrap(),
                last_wins(field_headers(top@).unwrap()),
                field_body(top@).unwrap(),
                field_flag(top@).unwrap(),
            )
        } else {
            Some(ProxyError::MalformedBackendReply)
        },
        _ => Some(ProxyError::MalformedBackendReply),
    }
}

/// `response` is what a well-formed reply document describes.
pub open spec fn is_response_of_document(response: OutgoingResponse, document: JsonValue) -> bool {
    document matches JsonValue::Object(top) && is_response(
        response,
        field_status(top@).unwrap(),
        last_wins(field_headers(top@).unwrap()),
        field_body(top@).unwrap(),
        field_flag(top@).unwrap(),
    )
}

/// Why the caller gets an error response after the backend call, if it does:
/// the backend was not reached; or it answered with a server-error status;
/// or its answer holds no JSON, or no well-formed reply document; or no
/// response can be made of the reply.
pub open spec fn outcome_failure(outcome: BackendOutcome) -> Option<ProxyError> {
    match outcome {
        BackendOutcome::Unreachable => Some(ProxyError::BackendUnreachable),
        BackendOutcome::Answered { status, document } => if is_server_error(status) {
            Some(ProxyError::BackendError)
        } else {
            match document {
                None => Some(ProxyError::MalformedBackendReply),
                Some(d) => document_failure(d),
            }
        },
    }
}

/// The members as pairs of owned texts, or `None` where one holds no text.
pub fn member_text_pairs(members: &Vec<(String, JsonValue)>) -> (pairs: Option<
    Vec<(String, String)>,
>)
    ensures
        pairs.is_some() == all_text(members@),
        pairs matches Some(p) ==> pairs_view(p@) == member_texts(members@),
{
    let mut pairs: Vec<(String, String)> = Vec::new();
    let mut i: usize = 0;
    while i < members.len()
        invariant
            i <= members.len(),
            pairs@.len() == i,
            forall|j: int| 0 <= j < i ==> (#[trigger] members@[j]).1 is Text,
            forall|j: int|
                0 <= j < i ==> (#[trigger] pairs@[j]).0@ == members@[j].0@ && pairs@[j].1@
                    == text_of(members@[j].1),
        decreases members.len() - i,
    {
        match &members[i].1 {
            JsonValue::Text(s) => {
                pairs.push((members[i].0.clone(), s.clone()));
            },
            _ => {
                return None;
            },
        }
        i += 1;
    }
    assert(pairs_view(pairs@) =~= member_texts(members@));
    Some(pairs)
}

impl BackendReply {
    /// Reads a reply from its document. Fails, with `MalformedBackendReply`,
    /// exactly when the document is not a well-formed reply document.
    pub fn from_document(document: &JsonValue) -> (read: Result<BackendReply, ProxyError>)
        ensures
            read.is_ok() == is_reply_document(*document),
            read matches Ok(reply) ==> document matches JsonValue::Object(top) && is_reply_of(
                reply,
                top@,
            ),
            read matches Err(e) ==> e == ProxyError::MalformedBackendReply,
    {
        let top = match document {
            JsonValue::Object(top) => top,
            _ => {
                return Err(ProxyError::MalformedBackendReply);
            },
        };
        let status_code = match find_member(top, "statusCode") {
            Some(JsonValue::Integer(n)) => *n,
            _ => {
                return Err(ProxyError::MalformedBackendReply);
            },
        };
        let pairs = match find_member(top, "headers") {
            Some(JsonValue::Object(members)) => member_text_pairs(members),
            _ => None,
        };
        let headers = match pairs {
            Some(p) => TextMap::from_pairs(p),
            None => {
                return Err(ProxyError::MalformedBackendReply);
            },
        };
        let body = match find_member(top, "body") {
            Some(JsonValue::Text(s)) => s.clone(),
            _ => {
                return Err(ProxyError::MalformedBackendReply);
            },
        };
        let is_base64_encoded = match find_member(top, "isBase64Encoded") {
            None => None,
            Some(JsonValue::Null) => None,
            Some(JsonValue::Bool(b)) => Some(*b),
            _ => {
                return Err(ProxyError::MalformedBackendReply);
            },
        };
        Ok(BackendReply { status_code, headers, body, is_base64_encoded })
    }

    /// The bytes of the body: decoded from base64 where the reply says so,
    /// else the UTF-8 bytes of the text. Fails, with `InvalidBodyEncoding`,
    /// exactly when the reply claims base64 and the text is none.
    pub fn body(&self) -> (bytes: Result<Vec<u8>, ProxyError>)
        ensures
            match bytes {
                Ok(b) => reply_body(self.body@, self.is_base64_encoded) == Some(b@),
                Err(e) => e == ProxyError::InvalidBodyEncoding && reply_body(
                    self.body@,
                    self.is_base64_encoded,
                ).is_none(),
            },
    {
        let encoded = match self.is_base64_encoded {
            Some(flag) => flag,
            None => false,
        };
        if encoded {
            match base64_decode(self.body.as_str()) {
                Some(b) => Ok(b),
                None => Err(ProxyError::InvalidBodyEncoding),
            }
        } else {
            Ok(self.body.as_str().as_bytes_vec())
        }
    }
}

/// Accepts a status code from 100 to 599 and refuses every other with
/// `InvalidStatusCode`.
pub fn check_status(code: i64) -> (checked: Result<u16, ProxyError>)
    ensures
        match checked {
            Ok(c) => valid_status(code) && c == code,
            Err(e) => !valid_status(code) && e == ProxyError::InvalidStatusCode,
        },
{
    if 100 <= code && code <= 599 {
        Ok(code as u16)
    } else {
        Err(ProxyError::InvalidStatusCode)
    }
}

/// Accepts a header set in which every name and every value is well-formed,
/// and refuses every other with `InvalidResponseHeader`.
pub fn check_headers(headers: &TextMap) -> (checked: Result<(), ProxyError>)
    ensures
        checked.is_ok() == valid_headers(headers@),
        checked matches Err(e) ==> e == ProxyError::InvalidResponseHeader,
{
    let entries = headers.entries();
    let ghost pairs = headers.pairs();
    let mut i: usize = 0;
    while i < entries.len()
        invariant
            i <= entries.len(),
            entries@.len() == pairs.len(),
            distinct_keys(pairs),
            headers@ == last_wins(pairs),
            forall|j: int| 0 <= j < entries.len() ==> (entries@[j].0@, entries@[j].1@) == pairs[j],
            forall|j: int|
                0 <= j < i ==> valid_header_name((#[trigger] pairs[j]).0) && valid_header_value(
                    pairs[j].1,
                ),
        decreases entries.len() - i,
    {
        let name_ok = header_name_accepted(entries[i].0.as_str());
        let value_ok = header_value_accepted(entries[i].1.as_str());
        if !name_ok || !value_ok {
            proof {
                lemma_last_occurrence_wins(pairs, i as int);
                assert(headers@.contains_key(pairs[i as int].0));
            }
            return Err(ProxyError::InvalidResponseHeader);
        }
        i += 1;
    }
    proof {
        assert forall|name: Seq<char>| #[trigger] headers@.contains_key(name) implies (
        valid_header_name(name) && valid_header_value(headers@[name])) by {
            lemma_last_wins_keys(pairs, name);
            let j = choose|j: int|
                0 <= j < pairs.len() && (#[trigger] pairs[j]) == (name, headers@[name]);
            assert(valid_header_name(pairs[j].0));
        }
    }
    Ok(())
}

/// Makes the response of a reply's status and headers and of what its body
/// came to: the body's failure first, then a status outside 100..=599, then a
/// malformed header. No header is dropped and none applied in part.
pub fn assemble_response(
    status_code: i64,
    headers: TextMap,
    body: Result<Vec<u8>, ProxyError>,
) -> (made: Result<OutgoingResponse, ProxyError>)
    ensures
        match made {
            Ok(response) => {
                &&& valid_status(status_code)
                &&& valid_headers(headers@)
                &&& response.status == status_code
                &&& response.headers@ == headers@
                &&& body matches Ok(b) && response.body@ == b@
            },
            Err(e) => match body {
                Err(body_error) => e == body_error,
                Ok(_) => if !valid_status(status_code) {
                    e == ProxyError::InvalidStatusCode
                } else {
                    !valid_headers(headers@) && e == ProxyError::InvalidResponseHeader
                },
            },
        },
{
    let body = match body {
        Ok(b) => b,
        Err(e) => {
            return Err(e);
        },
    };
    let status = match check_status(status_code) {
        Ok(c) => c,
        Err(e) => {
            return Err(e);
        },
    };
    match check_headers(&headers) {
        Ok(()) => Ok(OutgoingResponse { status, headers, body }),
        Err(e) => Err(e),
    }
}

/// Makes the response that a reply describes, or says why none can be made.
pub fn reconstruct_response(reply: BackendReply) -> (made: Result<OutgoingResponse, ProxyError>)
    ensures
        match made {
            Ok(response) => reply_failure(reply).is_none() && is_response_of(response, reply),
            Err(e) => reply_failure(reply) == Some(e),
        },
{
    let body = reply.body();
    assemble_response(reply.status_code, reply.headers, body)
}

/// Makes the response that a reply document describes, or says why none can
/// be made.
pub fn respond_to_document(document: &JsonValue) -> (made: Result<OutgoingResponse, ProxyError>)
    ensures
        match made {
            Ok(response) => document_failure(*document).is_none() && is_response_of_document(
                response,
                *document,
            ),
            Err(e) => document_failure(*document) == Some(e),
        },
{
    match BackendReply::from_document(document) {
        Ok(reply) => reconstruct_response(reply),
        Err(e) => Err(e),
    }
}

/// Decides what the backend call came to: an unreachable backend, a
/// server-error status and an unreadable reply each fail, in that order, and
/// a readable reply is reconstructed.
pub fn resolve_outcome(outcome: &BackendOutcome) -> (made: Result<OutgoingResponse, ProxyError>)
    ensures
        match made {
            Ok(response) => {
                &&& outcome_failure(*outcome).is_none()
                &&& *outcome matches BackendOutcome::Answered { document: Some(d), .. }
                &&& is_response_of_document(response, d)
            },
            Err(e) => outcome_failure(*outcome) == Some(e),
        },
{
    match outcome {
        BackendOutcome::Unreachable => Err(ProxyError::BackendUnreachable),
        BackendOutcome::Answered { status, document } => {
            if 500 <= *status && *status <= 599 {
                Err(ProxyError::BackendError)
            } else {
                match document {
                    None => Err(ProxyError::MalformedBackendReply),
                    Some(d) => respond_to_document(d),
                }
            }
        },
    }
}

/// Whatever else a reply holds, its status decides between a response that
/// carries it and `InvalidStatusCode`, as long as its body can be read and
/// its headers are well-formed: a status from 100 to 599 is kept, any other
/// is refused.
pub proof fn lemma_status_decides(
    status_code: i64,
    headers: Map<Seq<char>, Seq<char>>,
    body: Seq<char>,
    is_base64_encoded: Option<bool>,
)
    requires
        reply_body(body, is_base64_encoded).is_some(),
        valid_headers(headers),
    ensures
        valid_status(status_code) ==> reconstruction_failure(
            status_code,
            headers,
            body,
            is_base64_encoded,
        ).is_none(),
        !valid_status(status_code) ==> reconstruction_failure(
            status_code,
            headers,
            body,
            is_base64_encoded,
        ) == Some(ProxyError::InvalidStatusCode),
{
}

/// `response` is the error response of `error`: status 500, no headers, and
/// the failure's fixed message as the body.
pub open spec fn is_error_response(response: OutgoingResponse, error: ProxyError) -> bool {
    &&& response.status == ERROR_STATUS
    &&& response.headers@ == Map::<Seq<char>, Seq<char>>::empty()
    &&& response.body@ == encode_utf8(error.message_text())
}

/// The response that answers a failed request. Its body is the failure's own
/// fixed message: nothing of what the backend said is in it.
pub fn error_response(error: ProxyError) -> (response: OutgoingResponse)
    ensures
        is_error_response(response, error),
{
    OutgoingResponse {
        status: error.status(),
        headers: TextMap::new(),
        body: error.message().as_bytes_vec(),
    }
}

/// The response the caller receives: the one made, or the error response of
/// the failure.
pub fn into_response(made: Result<OutgoingResponse, ProxyError>) -> (response: OutgoingResponse)
    ensures
        match made {
            Ok(r) => response == r,
            Err(e) => is_error_response(response, e),
        },
{
    match made {
        Ok(r) => r,
        Err(e) => error_response(e),
    }
}

} // verus!
