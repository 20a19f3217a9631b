use vstd::prelude::*;
use vstd::utf8::{decode_utf8, valid_utf8};
use crate::codec::{
    base64_bytes, base64_decode, base64_encode, base64_text, form_pairs, format_instant,
    parse_form, text_from_utf8, time_text, TIME_PATTERN,
};
use crate::error::ProxyError;
use crate::json::{
    is_text, is_text_list, is_text_object, key_at, text_at, text_list, text_object, JsonValue,
};
use crate::text_map::{last_wins, lemma_last_wins_push, TextMap, TextPairs};

verus! {

/// An inbound HTTP request, as plain values.
#[derive(Debug)]
pub struct InboundRequest {
    pub method: String,
    pub path: String,
    /// The raw query string, without the `?`; `None` where the URI has none.
    pub query: Option<String>,
    /// Header names with the raw bytes of their values, in arrival order.
    pub headers: Vec<(String, Vec<u8>)>,
    pub body: Vec<u8>,
}

/// An instant together with its text in the event's time format.
#[derive(Debug)]
pub struct Timestamp {
    millis: i64,
    text: String,
}

impl Timestamp {
    #[verifier::type_invariant]
    closed spec fn formatted(&self) -> bool {
        time_text(self.millis as int, TIME_PATTERN@) == Some(self.text@)
    }

    /// Milliseconds since the epoch.
    pub closed spec fn epoch_millis(&self) -> int {
        self.millis as int
    }

    /// The instant as `DD/Mon/YYYY:HH:MM:SS +0000`.
    pub closed spec fn text(&self) -> Seq<char> {
        self.text@
    }

    /// The instant `millis` milliseconds after the epoch, or `None` where no
    /// calendar date can be given for it.
    pub fn from_millis(millis: i64) -> (stamp: Option<Timestamp>)
        ensures
            match stamp {
                Some(s) => s.epoch_millis() == millis && time_text(millis as int, TIME_PATTERN@)
                    == Some(s.text()),
                None => time_text(millis as int, TIME_PATTERN@).is_none(),
            },
    {
        match format_instant(millis, TIME_PATTERN) {
            Some(text) => Some(Timestamp { millis, text }),
            None => None,
        }
    }

    pub fn millis(&self) -> (millis: i64)
        ensures
            millis == self.epoch_millis(),
    {
        self.millis
    }

    pub fn formatted_text(&self) -> (text: &String)
        ensures
            text@ == self.text(),
            time_text(self.epoch_millis(), TIME_PATTERN@) == Some(text@),
    {
        proof {
            use_type_invariant(self);
        }
        &self.text
    }
}

/// The `requestContext.http` object of an event.
#[derive(Debug)]
pub struct HttpContext {
    pub method: String,
    pub path: String,
    pub protocol: String,
    pub source_ip: String,
    pub user_agent: String,
}

/// The `requestContext` object of an event.
#[derive(Debug)]
pub struct RequestContext {
    pub account_id: String,
    pub api_id: String,
    pub domain_name: String,
    pub domain_prefix: String,
    pub http: HttpContext,
    pub request_id: String,
    pub route_key: String,
    pub stage: String,
    pub time: String,
    pub time_epoch: i64,
}

/// What an invocation event holds, member by member.
#[derive(Debug)]
pub struct EventContent {
    pub version: String,
    pub route_key: String,
    pub raw_path: String,
    pub raw_query_string: String,
    pub cookies: Vec<String>,
    pub headers: TextMap,
    pub query_string_parameters: TextMap,
    pub request_context: RequestContext,
    pub body: String,
    pub is_base64_encoded: bool,
}

/// The invocation event sent to the backend for one inbound request. Once
/// built it does not change, and its body is always base64 and marked so.
#[derive(Debug)]
pub struct InvocationEvent {
    content: EventContent,
}

impl View for InvocationEvent {
    type V = EventContent;

    closed spec fn view(&self) -> EventContent {
        self.content
    }
}

/// Every header value is valid UTF-8.
pub open spec fn headers_are_text(headers: Seq<(String, Vec<u8>)>) -> bool {
    forall|i: int| 0 <= i < headers.len() ==> valid_utf8(#[trigger] headers[i].1@)
}

/// The headers as pairs of text, each value decoded from UTF-8.
pub open spec fn header_texts(headers: Seq<(String, Vec<u8>)>) -> TextPairs {
    Seq::new(headers.len(), |i: int| (headers[i].0@, decode_utf8(headers[i].1@)))
}

/// The raw query string of a request: empty where the URI has none.
pub open spec fn raw_query(query: Option<String>) -> Seq<char> {
    match query {
        Some(q) => q@,
        None => Seq::<char>::empty(),
    }
}

/// The fixed parts of a request context: placeholders for what only a real
/// function-URL environment knows.
pub open spec fn fixed_context(context: RequestContext) -> bool {
    &&& context.account_id@ == "anonymous"@
    &&& context.api_id@ == "xxxxxxxxxx"@
    &&& context.domain_name@ == "xxxxxxxxxx.lambda-url.ap-northeast-1.on.aws"@
    &&& context.domain_prefix@ == "xxxxxxxxxx"@
    &&& context.request_id@ == "xxxxxxxx-xxxx-xxxx-xxxx-xxxxxxxxxxxx"@
    &&& context.route_key@ == "$default"@
    &&& context.stage@ == "$default"@
    &&& context.http.protocol@ == "HTTP/1.1"@
    &&& context.http.source_ip@ == "1.2.3.4"@
    &&& context.http.user_agent@ == "curl/7.81.0"@
}

/// `event` is the invocation event of `request` received at `now`.
pub open spec fn is_event_of(
    event: EventContent,
    request: InboundRequest,
    now: Timestamp,
) -> bool {
    &&& event.version@ == "2.0"@
    &&& event.route_key@ == "$default"@
    &&& event.raw_path@ == request.path@
    &&& event.raw_query_string@ == raw_query(request.query)
    &&& event.cookies@.len() == 2
    &&& event.cookies@[0]@ == "cookie1=value1"@
    &&& event.cookies@[1]@ == "cookie2=value2"@
    &&& event.headers@ == last_wins(header_texts(request.headers@))
    &&& event.query_string_parameters@ == last_wins(form_pairs(raw_query(request.query)))
    &&& fixed_context(event.request_context)
    &&& event.request_context.http.method@ == request.method@
    &&& event.request_context.http.path@ == request.path@
    &&& event.request_context.time@ == now.text()
    &&& event.request_context.time_epoch == now.epoch_millis()
    &&& event.body@ == base64_text(request.body@)
    &&& base64_bytes(event.body@) == Some(request.body@)
    &&& event.is_base64_encoded
}

/// The mapping of a query string's parameters: the pairs it holds as
/// `application/x-www-form-urlencoded`, the last occurrence of a key winning.
pub fn parse_query(query: &str) -> (parameters: TextMap)
    ensures
        parameters@ == last_wins(form_pairs(query@)),
{
    TextMap::from_pairs(parse_form(query))
}

/// The header mapping of a request: fails on the first value that is not
/// valid UTF-8, and otherwise holds every header, the last occurrence of a
/// name winning.
pub fn decode_headers(headers: &Vec<(String, Vec<u8>)>) -> (decoded: Result<TextMap, ProxyError>)
    ensures
        decoded.is_ok() == headers_are_text(headers@),
        decoded matches Ok(map) ==> map@ == last_wins(header_texts(headers@)),
        decoded matches Err(e) ==> e == ProxyError::InvalidHeaderEncoding,
{
    let mut map = TextMap::new();
    let mut i: usize = 0;
    while i < headers.len()
        invariant
            i <= headers.len(),
            forall|j: int| 0 <= j < i ==> valid_utf8(#[trigger] headers@[j].1@),
            map@ == last_wins(header_texts(headers@).take(i as int)),
        decreases headers.len() - i,
    {
        match text_from_utf8(&headers[i].1) {
            Some(value) => {
                let name = headers[i].0.clone();
                proof {
                    let all = header_texts(headers@);
                    lemma_last_wins_push(all.take(i as int), name@, value@);
                    assert(all.take(i as int + 1) =~= all.take(i as int).push((name@, value@)));
                }
                map.insert(name, value);
            },
            None => {
                return Err(ProxyError::InvalidHeaderEncoding);
            },
        }
        i += 1;
    }
    assert(header_texts(headers@).take(headers.len() as int) =~= header_texts(headers@));
    Ok(map)
}

/// Builds the invocation event of `request`, received at `now`.
///
/// Fails, with `InvalidHeaderEncoding`, exactly when a header value is not
/// valid UTF-8. The body is always carried as base64, whatever it holds, and
/// decodes back to the request's body.
pub fn build_event(request: &InboundRequest, now: &Timestamp) -> (built: Result<
    InvocationEvent,
    ProxyError,
>)
    requires
        request.body@.len() <= isize::MAX,
    ensures
        built.is_ok() == headers_are_text(request.headers@),
        built matches Ok(event) ==> is_event_of(event@, *request, *now),
        built matches Err(e) ==> e == ProxyError::InvalidHeaderEncoding,
{
    let headers = match decode_headers(&request.headers) {
        Ok(map) => map,
        Err(e) => {
            return Err(e);
        },
    };
    let raw_query_string = match &request.query {
        Some(q) => q.clone(),
        None => String::new(),
    };
    let query_string_parameters = parse_query(raw_query_string.as_str());
    let mut cookies: Vec<String> = Vec::new();
    cookies.push("cookie1=value1".to_owned());
    cookies.push("cookie2=value2".to_owned());
    let http = HttpContext {
        method: request.method.clone(),
        path: request.path.clone(),
        protocol: "HTTP/1.1".to_owned(),
        source_ip: "1.2.3.4".to_owned(),
        user_agent: "curl/7.81.0".to_owned(),
    };
    let request_context = RequestContext {
        account_id: "anonymous".to_owned(),
        api_id: "xxxxxxxxxx".to_owned(),
        domain_name: "xxxxxxxxxx.lambda-url.ap-northeast-1.on.aws".to_owned(),
        domain_prefix: "xxxxxxxxxx".to_owned(),
        http,
        request_id: "xxxxxxxx-xxxx-xxxx-xxxx-xxxxxxxxxxxx".to_owned(),
        route_key: "$default".to_owned(),
        stage: "$default".to_owned(),
        time: now.formatted_text().clone(),
        time_epoch: now.millis(),
    };
    let content = EventContent {
        version: "2.0".to_owned(),
        route_key: "$default".to_owned(),
        raw_path: request.path.clone(),
        raw_query_string,
        cookies,
        headers,
        query_string_parameters,
        request_context,
        body: base64_encode(&request.body),
        is_base64_encoded: true,
    };
    Ok(InvocationEvent { content })
}

/// `value` is the `requestContext.http` object of `http`.
pub open spec fn is_http_document(value: JsonValue, http: HttpContext) -> bool {
    value matches JsonValue::Object(m) && {
        &&& m@.len() == 5
        &&& text_at(m@, 0, "method"@, http.method@)
        &&& text_at(m@, 1, "path"@, http.path@)
        &&& text_at(m@, 2, "protocol"@, http.protocol@)
        &&& text_at(m@, 3, "sourceIp"@, http.source_ip@)
        &&& text_at(m@, 4, "userAgent"@, http.user_agent@)
    }
}

/// `value` is the `requestContext` object of `context`.
pub open spec fn is_context_document(value: JsonValue, context: RequestContext) -> bool {
    value matches JsonValue::Object(m) && {
        &&& m@.len() == 10
        &&& text_at(m@, 0, "accountId"@, context.account_id@)
        &&& text_at(m@, 1, "apiId"@, context.api_id@)
        &&& text_at(m@, 2, "domainName"@, context.domain_name@)
        &&& text_at(m@, 3, "domainPrefix"@, context.domain_prefix@)
        &&& key_at(m@, 4, "http"@)
        &&& is_http_document(m@[4].1, context.http)
        &&& text_at(m@, 5, "requestId"@, context.request_id@)
        &&& text_at(m@, 6, "routeKey"@, context.route_key@)
        &&& text_at(m@, 7, "stage"@, context.stage@)
        &&& text_at(m@, 8, "time"@, context.time@)
        &&& key_at(m@, 9, "timeEpoch"@)
        &&& m@[9].1 == JsonValue::Integer(context.time_epoch)
    }
}

/// `value` is the document of `event`: an object with exactly the ten
/// members of the wire schema, under their camelCase keys.
pub open spec fn is_event_document(value: JsonValue, event: EventContent) -> bool {
    value matches JsonValue::Object(m) && {
        &&& m@.len() == 10
        &&& text_at(m@, 0, "version"@, event.version@)
        &&& text_at(m@, 1, "routeKey"@, event.route_key@)
        &&& text_at(m@, 2, "rawPath"@, event.raw_path@)
        &&& text_at(m@, 3, "rawQueryString"@, event.raw_query_string@)
        &&& key_at(m@, 4, "cookies"@)
        &&& is_text_list(m@[4].1, event.cookies@)
        &&& key_at(m@, 5, "headers"@)
        &&& is_text_object(m@[5].1, event.headers.pairs())
        &&& key_at(m@, 6, "queryStringParameters"@)
        &&& is_text_object(m@[6].1, event.query_string_parameters.pairs())
        &&& key_at(m@, 7, "requestContext"@)
        &&& is_context_document(m@[7].1, event.request_context)
        &&& text_at(m@, 8, "body"@, event.body@)
        &&& key_at(m@, 9, "isBase64Encoded"@)
        &&& m@[9].1 == JsonValue::Bool(event.is_base64_encoded)
    }
}

fn member_of(key: &str, value: JsonValue) -> (made: (String, JsonValue))
    ensures
        made.0@ == key@,
        made.1 == value,
{
    (key.to_owned(), value)
}

fn text_member(key: &str, text: &String) -> (made: (String, JsonValue))
    ensures
        made.0@ == key@,
        is_text(made.1, text@),
{
    (key.to_owned(), JsonValue::Text(text.clone()))
}

impl HttpContext {
    /// The `requestContext.http` object.
    pub fn to_document(&self) -> (value: JsonValue)
        ensures
            is_http_document(value, *self),
    {
        let mut m: Vec<(String, JsonValue)> = Vec::new();
        m.push(text_member("method", &self.method));
        m.push(text_member("path", &self.path));
        m.push(text_member("protocol", &self.protocol));
        m.push(text_member("sourceIp", &self.source_ip));
        m.push(text_member("userAgent", &self.user_agent));
        JsonValue::Object(m)
    }
}

impl RequestContext {
    /// The `requestContext` object.
    pub fn to_document(&self) -> (value: JsonValue)
        ensures
            is_context_document(value, *self),
    {
        let mut m: Vec<(String, JsonValue)> = Vec::new();
        m.push(text_member("accountId", &self.account_id));
        m.push(text_member("apiId", &self.api_id));
        m.push(text_member("domainName", &self.domain_name));
        m.push(text_member("domainPrefix", &self.domain_prefix));
        m.push(member_of("http", self.http.to_document()));
        m.push(text_member("requestId", &self.request_id));
        m.push(text_member("routeKey", &self.route_key));
        m.push(text_member("stage", &self.stage));
        m.push(text_member("time", &self.time));
        m.push(member_of("timeEpoch", JsonValue::Integer(self.time_epoch)));
        JsonValue::Object(m)
    }
}

impl InvocationEvent {
    #[verifier::type_invariant]
    closed spec fn paired(&self) -> bool {
        self.content.is_base64_encoded && base64_bytes(self.content.body@).is_some()
    }

    /// What the event holds. The body is base64 and the flag says so.
    pub fn content(&self) -> (content: &EventContent)
        ensures
            *content == self@,
            content.is_base64_encoded,
            base64_bytes(content.body@).is_some(),
    {
        proof {
            use_type_invariant(self);
        }
        &self.content
    }

    /// The event as the document that is sent to the backend.
    pub fn to_document(&self) -> (value: JsonValue)
        ensures
            is_event_document(value, self@),
    {
        let c = &self.content;
        let mut m: Vec<(String, JsonValue)> = Vec::new();
        m.push(text_member("version", &c.version));
        m.push(text_member("routeKey", &c.route_key));
        m.push(text_member("rawPath", &c.raw_path));
        m.push(text_member("rawQueryString", &c.raw_query_string));
        m.push(member_of("cookies", text_list(&c.cookies)));
        m.push(member_of("headers", text_object(&c.headers)));
        m.push(member_of("queryStringParameters", text_object(&c.query_string_parameters)));
        m.push(member_of("requestContext", c.request_context.to_document()));
        m.push(text_member("body", &c.body));
        m.push(member_of("isBase64Encoded", JsonValue::Bool(c.is_base64_encoded)));
        JsonValue::Object(m)
    }

    /// The bytes that the event's `body` stands for. For an event that
    /// `build_event` made, these are the request's body.
    pub fn decoded_body(&self) -> (bytes: Vec<u8>)
        ensures
            base64_bytes(self@.body@) == Some(bytes@),
    {
        proof {
            use_type_invariant(self);
        }
        base64_decode(self.content.body.as_str()).unwrap()
    }
}

} // verus!
