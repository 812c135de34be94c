//! The explorer API client: request URLs, the JSON envelope every reply
//! shares, and the decoding of source-code and ABI replies.

use vstd::prelude::*;

use crate::eth::Address;
use crate::json::{
    get_field, get_string_field, json_of, lookup, parse_json, string_field, Json,
};

verus! {

/// Failures of the client: the transport failed, or the reply was not the
/// expected JSON. Each variant carries a description of what went wrong.
#[derive(Debug)]
pub enum Errors {
    /// The HTTP transport failed: connection, timeout, or reading the body.
    HTTPError(String),
    /// The reply was not valid JSON, or not an envelope of the expected
    /// shape.
    JSONError(String),
}

/// The envelope common to all of the API's replies: a status code and a
/// message from the remote side, and the payload list. Which of status and
/// message mean success is left to the caller.
#[derive(Debug)]
pub struct Response<T> {
    pub status: String,
    pub message: String,
    pub result: Vec<T>,
}

/// The payload of a source-code reply.
#[derive(Debug)]
pub struct SourceCode {
    pub source: String,
    pub constructor_args: String,
    pub contract_name: String,
}

/// An opaque contract interface description.
pub struct ABI(pub String);

/// The three string fields of a source-code payload item, if the item is
/// an object carrying all of them.
pub open spec fn source_item_fields(j: Json) -> Option<(Seq<char>, Seq<char>, Seq<char>)> {
    match j {
        Json::Object(fields) => match (
            string_field(fields@, "SourceCode"@),
            string_field(fields@, "ConstructorArguments"@),
            string_field(fields@, "ContractName"@),
        ) {
            (Some(src), Some(args), Some(name)) => Some((src, args, name)),
            _ => None,
        },
        _ => None,
    }
}

/// A decoded payload item agrees with the fields read out of the JSON.
pub open spec fn source_code_is(sc: SourceCode, parts: (Seq<char>, Seq<char>, Seq<char>)) -> bool {
    sc.source@ == parts.0 && sc.constructor_args@ == parts.1 && sc.contract_name@ == parts.2
}

/// The envelope's status, message and payload list, if the document is an
/// object carrying string `status` and `message` fields and an array
/// `result` field.
pub open spec fn envelope_parts(j: Json) -> Option<(Seq<char>, Seq<char>, Seq<Json>)> {
    match j {
        Json::Object(fields) => match (
            string_field(fields@, "status"@),
            string_field(fields@, "message"@),
            lookup(fields@, "result"@),
        ) {
            (Some(st), Some(msg), Some(Json::Array(items))) => Some((st, msg, items@)),
            _ => None,
        },
        _ => None,
    }
}

/// Every payload item is a well-shaped source-code object.
pub open spec fn source_items_ok(items: Seq<Json>) -> bool {
    forall|k: int| 0 <= k < items.len() ==> source_item_fields(items[k]) is Some
}

/// Every payload item is a plain string.
pub open spec fn string_items_ok(items: Seq<Json>) -> bool {
    forall|k: int| 0 <= k < items.len() ==> (#[trigger] items[k]) matches Json::Text(_)
}

/// What decoding a source-code reply from the text `s` must give: a
/// decoding error exactly when the text is not JSON or not a well-shaped
/// envelope of source-code items, and otherwise the envelope's own fields,
/// item by item.
pub open spec fn source_response_matches(
    s: Seq<char>,
    r: Result<Response<SourceCode>, Errors>,
) -> bool {
    match json_of(s) {
        None => r matches Err(Errors::JSONError(_)),
        Some(j) => match envelope_parts(j) {
            None => r matches Err(Errors::JSONError(_)),
            Some(parts) => if source_items_ok(parts.2) {
                r matches Ok(resp) && resp.status@ == parts.0 && resp.message@ == parts.1
                    && resp.result@.len() == parts.2.len() && (forall|k: int|
                    0 <= k < parts.2.len() ==> ((#[trigger] source_item_fields(parts.2[k])) matches Some(p)
                        && source_code_is(resp.result@[k], p)))
            } else {
                r matches Err(Errors::JSONError(_))
            },
        },
    }
}

/// What decoding an ABI reply from the text `s` must give: as above, but
/// with every payload item a plain string, carried over unchanged.
pub open spec fn abi_response_matches(s: Seq<char>, r: Result<Response<String>, Errors>) -> bool {
    match json_of(s) {
        None => r matches Err(Errors::JSONError(_)),
        Some(j) => match envelope_parts(j) {
            None => r matches Err(Errors::JSONError(_)),
            Some(parts) => if string_items_ok(parts.2) {
                r matches Ok(resp) && resp.status@ == parts.0 && resp.message@ == parts.1
                    && resp.result@.len() == parts.2.len() && (forall|k: int|
                    0 <= k < parts.2.len() ==> ((#[trigger] parts.2[k]) matches Json::Text(t)
                        && resp.result@[k]@ == t@))
            } else {
                r matches Err(Errors::JSONError(_))
            },
        },
    }
}

/// Law: a reply body that is not valid JSON can only decode to a
/// `JSONError`, never to a success or a transport error.
pub proof fn lemma_malformed_source_body_gives_json_error(
    s: Seq<char>,
    r: Result<Response<SourceCode>, Errors>,
)
    requires
        json_of(s) is None,
        source_response_matches(s, r),
    ensures
        r matches Err(Errors::JSONError(_)),
{
}

/// Law: as above, for an ABI reply.
pub proof fn lemma_malformed_abi_body_gives_json_error(
    s: Seq<char>,
    r: Result<Response<String>, Errors>,
)
    requires
        json_of(s) is None,
        abi_response_matches(s, r),
    ensures
        r matches Err(Errors::JSONError(_)),
{
}

/// Decodes one source-code payload item.
fn source_item_of(j: &Json) -> (r: Option<SourceCode>)
    ensures
        match r {
            Some(sc) => source_item_fields(*j) matches Some(p) && source_code_is(sc, p),
            None => source_item_fields(*j) is None,
        },
{
    match j {
        Json::Object(fields) => {
            let src = get_string_field(fields, &"SourceCode".to_owned());
            let args = get_string_field(fields, &"ConstructorArguments".to_owned());
            let name = get_string_field(fields, &"ContractName".to_owned());
            match (src, args, name) {
                (Some(source), Some(constructor_args), Some(contract_name)) => Some(
                    SourceCode { source, constructor_args, contract_name },
                ),
                _ => None,
            }
        },
        _ => None,
    }
}

/// Splits a parsed document into the envelope's status, message and
/// payload list.
fn envelope_of(j: &Json) -> (r: Option<(String, String, &Vec<Json>)>)
    ensures
        match r {
            Some(parts) => envelope_parts(*j) matches Some(p) && parts.0@ == p.0 && parts.1@
                == p.1 && parts.2@ == p.2,
            None => envelope_parts(*j) is None,
        },
{
    match j {
        Json::Object(fields) => {
            let st = get_string_field(fields, &"status".to_owned());
            let msg = get_string_field(fields, &"message".to_owned());
            let res = get_field(fields, &"result".to_owned());
            match (st, msg, res) {
                (Some(status), Some(message), Some(Json::Array(items))) => Some(
                    (status, message, items),
                ),
                _ => None,
            }
        },
        _ => None,
    }
}

/// Decodes the text of a source-code reply into its envelope.
#[verifier::loop_isolation(false)]
pub fn parse_source_response(body: &str) -> (r: Result<Response<SourceCode>, Errors>)
    ensures
        source_response_matches(body@, r),
{
    let j = match parse_json(body) {
        Err(m) => {
            return Err(Errors::JSONError(m));
        },
        Ok(j) => j,
    };
    let (status, message, items) = match envelope_of(&j) {
        None => {
            return Err(Errors::JSONError("not a response envelope".to_owned()));
        },
        Some(parts) => parts,
    };
    let mut result: Vec<SourceCode> = Vec::new();
    let mut k: usize = 0;
    while k < items.len()
        invariant
            k <= items@.len(),
            result@.len() == k,
            forall|t: int|
                0 <= t < k ==> ((#[trigger] source_item_fields(items@[t])) matches Some(p)
                    && source_code_is(result@[t], p)),
        decreases items@.len() - k,
    {
        match source_item_of(&items[k]) {
            Some(sc) => {
                result.push(sc);
            },
            None => {
                proof {
                    assert(source_item_fields(items@[k as int]) is None);
                    assert(!source_items_ok(items@));
                }
                return Err(Errors::JSONError("not a source code item".to_owned()));
            },
        }
        k = k + 1;
    }
    Ok(Response { status, message, result })
}

/// Decodes the text of an ABI reply into its envelope of plain strings.
#[verifier::loop_isolation(false)]
pub fn parse_abi_response(body: &str) -> (r: Result<Response<String>, Errors>)
    ensures
        abi_response_matches(body@, r),
{
    let j = match parse_json(body) {
        Err(m) => {
            return Err(Errors::JSONError(m));
        },
        Ok(j) => j,
    };
    let (status, message, items) = match envelope_of(&j) {
        None => {
            return Err(Errors::JSONError("not a response envelope".to_owned()));
        },
        Some(parts) => parts,
    };
    let mut result: Vec<String> = Vec::new();
    let mut k: usize = 0;
    while k < items.len()
        invariant
            k <= items@.len(),
            result@.len() == k,
            forall|t: int|
                0 <= t < k ==> ((#[trigger] items@[t]) matches Json::Text(s) && result@[t]@ == s@),
        decreases items@.len() - k,
    {
        match &items[k] {
            Json::Text(s) => {
                result.push(s.clone());
            },
            _ => {
                proof {
                    assert(!((#[trigger] items@[k as int]) matches Json::Text(_)));
                    assert(!string_items_ok(items@));
                }
                return Err(Errors::JSONError("not a string item".to_owned()));
            },
        }
        k = k + 1;
    }
    Ok(Response { status, message, result })
}

/// The capability to perform one HTTP GET and hand back the body text.
/// What comes back depends on the network, so nothing is promised of an
/// outcome: every caller states what it does with each possible one. The
/// error is a description of the transport failure.
pub trait Transport {
    fn fetch(&self, url: &str) -> Result<String, String>;
}

/// Declares `ureq::Agent` so that a transport can hold one; the agent
/// itself stays opaque here.
#[verifier::external_type_specification]
#[verifier::external_body]
pub struct ExAgent(ureq::Agent);

/// The default transport: a reusable `ureq` agent with a five-second
/// timeout per request.
pub struct HttpTransport {
    agent: ureq::Agent,
}

impl HttpTransport {
    /// Relies on `ureq::AgentBuilder`: builds an agent whose requests time
    /// out after five seconds.
    #[verifier::external_body]
    pub fn new() -> HttpTransport {
        let agent = ureq::AgentBuilder::new().timeout(
            std::time::Duration::from_secs(5),
        ).build();
        HttpTransport { agent }
    }
}

/// Relies on `ureq::Agent::get`, `ureq::Request::call` and
/// `ureq::Response::into_string`: one HTTP GET; any connection, timeout
/// or body-read failure is rendered as the error string. What comes back
/// depends on the network, so nothing is promised of the outcome.
#[verifier::external_body]
fn agent_fetch(agent: &ureq::Agent, url: &str) -> Result<String, String> {
    match agent.get(url).call() {
        Ok(resp) => resp.into_string().map_err(|e| e.to_string()),
        Err(e) => Err(e.to_string()),
    }
}

impl Transport for HttpTransport {
    fn fetch(&self, url: &str) -> Result<String, String> {
        agent_fetch(&self.agent, url)
    }
}

/// The explorer endpoint with the API key embedded as a query parameter.
pub open spec fn spec_base_url(apikey: Seq<char>) -> Seq<char> {
    "https://api.etherscan.io/api?apikey="@ + apikey
}

/// The URL of the source-code query for an address, against a base URL.
/// The ABI query builds the same URL: the remote action is the same.
pub open spec fn spec_query_url(base: Seq<char>, addr: Seq<char>) -> Seq<char> {
    base + "/&module=contract&action=getsourcecode&address="@ + addr
}

/// What the client does with each outcome of a transport fetch for a
/// source-code query: a transport failure surfaces as `HTTPError` with
/// the transport's description, and a received body is decoded as a
/// source-code envelope.
pub fn source_response_of_fetch(fetched: Result<String, String>) -> (r: Result<
    Response<SourceCode>,
    Errors,
>)
    ensures
        fetched matches Err(m) ==> r == Err::<Response<SourceCode>, Errors>(
            Errors::HTTPError(m),
        ),
        fetched matches Ok(b) ==> source_response_matches(b@, r),
{
    match fetched {
        Err(m) => Err(Errors::HTTPError(m)),
        Ok(b) => parse_source_response(b.as_str()),
    }
}

/// What the client does with each outcome of a transport fetch for an ABI
/// query: a transport failure surfaces as `HTTPError`, and a received
/// body is decoded as an envelope of plain strings.
pub fn abi_response_of_fetch(fetched: Result<String, String>) -> (r: Result<
    Response<String>,
    Errors,
>)
    ensures
        fetched matches Err(m) ==> r == Err::<Response<String>, Errors>(Errors::HTTPError(m)),
        fetched matches Ok(b) ==> abi_response_matches(b@, r),
{
    match fetched {
        Err(m) => Err(Errors::HTTPError(m)),
        Ok(b) => parse_abi_response(b.as_str()),
    }
}

/// A client for the explorer API: an API key, the base URL with the key
/// embedded, and the transport the queries go through. Stateless after
/// construction.
pub struct Client<T: Transport> {
    pub apikey: String,
    pub url: String,
    pub http: T,
}

impl Client<HttpTransport> {
    /// Builds a client with the default five-second-timeout transport.
    pub fn new(apikey: String) -> (c: Client<HttpTransport>)
        ensures
            c.apikey@ == apikey@,
            c.url@ == spec_base_url(apikey@),
    {
        let http = HttpTransport::new();
        Client::new_with_custom_http(apikey, http)
    }
}

impl<T: Transport> Client<T> {
    /// Builds a client around a caller-supplied transport.
    pub fn new_with_custom_http(apikey: String, http: T) -> (c: Client<T>)
        ensures
            c.apikey@ == apikey@,
            c.url@ == spec_base_url(apikey@),
            c.http == http,
    {
        let mut url = "https://api.etherscan.io/api?apikey=".to_owned();
        url.append(apikey.as_str());
        Client { apikey, url, http }
    }

    /// The URL both queries are sent to for `addr`.
    fn query_url(&self, addr: &Address) -> (u: String)
        ensures
            u@ == spec_query_url(self.url@, addr@),
    {
        let mut u = self.url.clone();
        u.append("/&module=contract&action=getsourcecode&address=");
        u.append(addr.as_str());
        u
    }

    /// Fetches and decodes the source code of the contract at `addr`. A
    /// successful result is the faithful decoding of some reply body; a
    /// decoding failure reports a body that was not a well-shaped
    /// envelope; a transport failure surfaces as `HTTPError`.
    pub fn get_source_code(&self, addr: &Address) -> (r: Result<Response<SourceCode>, Errors>)
        ensures
            match r {
                Ok(resp) => exists|b: Seq<char>|
                    source_response_matches(b, Ok::<Response<SourceCode>, Errors>(resp)),
                Err(Errors::JSONError(m)) => exists|b: Seq<char>|
                    source_response_matches(
                        b,
                        Err::<Response<SourceCode>, Errors>(Errors::JSONError(m)),
                    ),
                Err(Errors::HTTPError(_)) => true,
            },
    {
        let url = self.query_url(addr);
        let fetched = self.http.fetch(url.as_str());
        let ghost outcome = fetched;
        let r = source_response_of_fetch(fetched);
        proof {
            if outcome is Ok {
                let b = outcome->Ok_0@;
                assert(source_response_matches(b, r));
                if r is Ok {
                    assert(source_response_matches(
                        b,
                        Ok::<Response<SourceCode>, Errors>(r->Ok_0),
                    ));
                } else if r->Err_0 is JSONError {
                    assert(source_response_matches(
                        b,
                        Err::<Response<SourceCode>, Errors>(
                            Errors::JSONError(r->Err_0->JSONError_0),
                        ),
                    ));
                }
            }
        }
        r
    }

    /// Fetches and decodes the ABI of the contract at `addr`; the query
    /// sent is the same as for the source code. The result is accounted
    /// for as in `get_source_code`.
    pub fn get_abi(&self, addr: &Address) -> (r: Result<Response<String>, Errors>)
        ensures
            match r {
                Ok(resp) => exists|b: Seq<char>|
                    abi_response_matches(b, Ok::<Response<String>, Errors>(resp)),
                Err(Errors::JSONError(m)) => exists|b: Seq<char>|
                    abi_response_matches(
                        b,
                        Err::<Response<String>, Errors>(Errors::JSONError(m)),
                    ),
                Err(Errors::HTTPError(_)) => true,
            },
    {
        let url = self.query_url(addr);
        let fetched = self.http.fetch(url.as_str());
        let ghost outcome = fetched;
        let r = abi_response_of_fetch(fetched);
        proof {
            if outcome is Ok {
                let b = outcome->Ok_0@;
                assert(abi_response_matches(b, r));
                if r is Ok {
                    assert(abi_response_matches(b, Ok::<Response<String>, Errors>(r->Ok_0)));
                } else if r->Err_0 is JSONError {
                    assert(abi_response_matches(
                        b,
                        Err::<Response<String>, Errors>(Errors::JSONError(r->Err_0->JSONError_0)),
                    ));
                }
            }
        }
        r
    }
}

} // verus!
