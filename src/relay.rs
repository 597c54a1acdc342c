use vstd::prelude::*;
use crate::preset::{headers_view, Header, HeaderView, Preset, PresetView};
use crate::registry::{loaded, Registry};

verus! {

/// The query-string portion of a request target: what follows its first `?`,
/// or nothing where it has none.
pub open spec fn query_of(target: Seq<char>) -> Seq<char>
    decreases target.len(),
{
    if target.len() == 0 {
        Seq::empty()
    } else if target[0] == '?' {
        target.drop_first()
    } else {
        query_of(target.drop_first())
    }
}

/// The registry key a request target addresses: its query string, verbatim.
pub fn derive_key(target: &str) -> (r: String)
    ensures
        r@ == query_of(target@),
{
    let n = target.unicode_len();
    let mut i: usize = 0;
    assert(target@.subrange(0, n as int) =~= target@);
    while i < n
        invariant
            n == target@.len(),
            i <= n,
            query_of(target@.subrange(i as int, n as int)) == query_of(target@),
        decreases n - i,
    {
        let ghost rest = target@.subrange(i as int, n as int);
        assert(rest.drop_first() =~= target@.subrange(i + 1, n as int));
        if target.get_char(i) == '?' {
            return target.substring_char(i + 1, n).to_owned();
        }
        i = i + 1;
    }
    assert(target@.subrange(n as int, n as int).len() == 0);
    String::new()
}

/// A request as the relay receives it: its method, its target (path and
/// query, which it also stands for as a URL) and its body.
#[derive(Debug)]
pub struct InboundRequest {
    pub method: String,
    pub target: String,
    pub body: Vec<u8>,
}

/// The one call the relay hands to the transport.
#[derive(Debug)]
pub struct OutboundRequest {
    pub method: String,
    pub url: String,
    pub headers: Vec<Header>,
    pub body: Vec<u8>,
}

/// The URL a relayed call goes to: the preset's, or else the inbound target.
pub open spec fn effective_url(found: Option<PresetView>, target: Seq<char>) -> Seq<char> {
    match found {
        Some(p) => p.url,
        None => target,
    }
}

/// The headers a relayed call carries: the preset's, or else none.
pub open spec fn effective_headers(found: Option<PresetView>) -> Seq<HeaderView> {
    match found {
        Some(p) => p.headers,
        None => Seq::empty(),
    }
}

/// Composes the outbound call for `inbound`. The preset under the target's
/// query string, if any, supplies the URL and the headers; the method and the
/// body are always the inbound ones.
pub fn plan_relay(registry: &Registry, inbound: &InboundRequest) -> (r: OutboundRequest)
    requires
        registry.wf(),
    ensures
        ({
            let found = loaded(registry@, query_of(inbound.target@));
            &&& r.method@ == inbound.method@
            &&& r.url@ == effective_url(found, inbound.target@)
            &&& headers_view(r.headers@) == effective_headers(found)
            &&& r.body@ == inbound.body@
        }),
{
    let key = derive_key(inbound.target.as_str());
    let found: Option<Preset> = registry.lookup_for_relay(key.as_str());
    let (url, headers) = match found {
        Some(p) => (p.url, p.headers),
        None => {
            let none: Vec<Header> = Vec::new();
            assert(headers_view(none@) =~= Seq::<HeaderView>::empty());
            (inbound.target.clone(), none)
        },
    };
    OutboundRequest {
        method: inbound.method.clone(),
        url,
        headers,
        body: inbound.body.clone(),
    }
}

/// The status of a relayed call that got a response, whatever the
/// downstream status was.
pub const SUCCESS_STATUS: u16 = 200;

/// The status of a relayed call that the transport could not complete.
pub const SERVER_ERROR_STATUS: u16 = 500;

/// What the transport reported for one call.
#[derive(Debug)]
pub enum TransportOutcome {
    /// A response came and its body was read to completion as text.
    Received(String),
    /// No response came: connection, DNS, TLS, timeout or a malformed URL.
    SendFailed(String),
    /// A response came but its body could not be read as text.
    ReadFailed(String),
}

/// How a relayed call ends for its caller.
#[derive(Debug)]
pub enum RelayResult {
    /// The downstream body, verbatim, under a fixed content type.
    Success { status: u16, content_type: String, data: String },
    /// A transport failure, with its description.
    Failure { status: u16, message: String },
}

/// The text that precedes the transport's description when sending failed.
pub open spec fn send_failed_prefix() -> Seq<char> {
    "Request failed: "@
}

/// The text that precedes the transport's description when reading failed.
pub open spec fn read_failed_prefix() -> Seq<char> {
    "Failed to read response body: "@
}

/// Concludes a relayed call from what the transport reported. Any response
/// that arrived is a success; every transport failure is a server error that
/// carries the transport's description.
pub fn complete_relay(outcome: TransportOutcome) -> (r: RelayResult)
    ensures
        match outcome {
            TransportOutcome::Received(body) => match r {
                RelayResult::Success { status, content_type, data } => status == SUCCESS_STATUS
                    && content_type@ == "application/json"@ && data@ == body@,
                RelayResult::Failure { .. } => false,
            },
            TransportOutcome::SendFailed(e) => match r {
                RelayResult::Failure { status, message } => status == SERVER_ERROR_STATUS
                    && message@ == send_failed_prefix() + e@,
                RelayResult::Success { .. } => false,
            },
            TransportOutcome::ReadFailed(e) => match r {
                RelayResult::Failure { status, message } => status == SERVER_ERROR_STATUS
                    && message@ == read_failed_prefix() + e@,
                RelayResult::Success { .. } => false,
            },
        },
{
    match outcome {
        TransportOutcome::Received(body) => RelayResult::Success {
            status: SUCCESS_STATUS,
            content_type: "application/json".to_owned(),
            data: body,
        },
        TransportOutcome::SendFailed(e) => {
            let mut message = "Request failed: ".to_owned();
            message.append(e.as_str());
            RelayResult::Failure { status: SERVER_ERROR_STATUS, message }
        },
        TransportOutcome::ReadFailed(e) => {
            let mut message = "Failed to read response body: ".to_owned();
            message.append(e.as_str());
            RelayResult::Failure { status: SERVER_ERROR_STATUS, message }
        },
    }
}

/// The compact JSON text of a string value.
pub uninterp spec fn json_quoted(s: Seq<char>) -> Seq<char>;

/// Relies on serde_json's `Value::String` and its `Display`, which writes the
/// value as compact JSON text: the string quoted and escaped.
#[verifier::external_body]
fn json_string(s: &str) -> (r: String)
    ensures
        r@ == json_quoted(s@),
{
    serde_json::Value::String(s.to_owned()).to_string()
}

/// The JSON object `{"data":...}` that wraps a downstream body.
pub open spec fn envelope_of(data: Seq<char>) -> Seq<char> {
    "{\"data\":"@ + json_quoted(data) + "}"@
}

/// The JSON object `{"data":...}` that carries `data` as a string.
pub fn data_envelope(data: &str) -> (r: String)
    ensures
        r@ == envelope_of(data@),
{
    let quoted = json_string(data);
    let mut r = "{\"data\":".to_owned();
    r.append(quoted.as_str());
    r.append("}");
    r
}

impl RelayResult {
    /// The status the caller receives.
    pub fn status(&self) -> (r: u16)
        ensures
            r == match self {
                RelayResult::Success { status, .. } => *status,
                RelayResult::Failure { status, .. } => *status,
            },
    {
        match self {
            RelayResult::Success { status, .. } => *status,
            RelayResult::Failure { status, .. } => *status,
        }
    }

    /// The body the caller receives: the downstream body wrapped as
    /// `{"data":...}`, or the failure's description.
    pub fn response_body(&self) -> (r: String)
        ensures
            r@ == match self {
                RelayResult::Success { data, .. } => envelope_of(data@),
                RelayResult::Failure { message, .. } => message@,
            },
    {
        match self {
            RelayResult::Success { data, .. } => data_envelope(data.as_str()),
            RelayResult::Failure { message, .. } => message.clone(),
        }
    }
}

} // verus!
