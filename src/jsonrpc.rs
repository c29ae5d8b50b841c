//! The JSON-RPC exchange of unixctl: how a request is written, how ids are
//! assigned, and how what came back over the connection is judged.
//!
//! One call is: [`Client::build_request`], write [`encode_request`] on the
//! connection, decode one value from it, then [`Client::call_params`] (or
//! [`Client::send_request`]) on what the decoding produced.

use vstd::prelude::*;

use crate::error::{err_view, Error, ErrorView};
use crate::text::{decimal, join, joined, push_decimal};

verus! {

/// A JSON-RPC request.
#[derive(Debug, Clone)]
pub struct Request {
    /// The name of the RPC call.
    pub method: String,
    /// Parameters to the RPC call.
    pub params: Vec<String>,
    /// Identifier for this request, which should appear in the response.
    pub id: usize,
}

/// A JSON-RPC response object.
#[derive(Debug, Clone)]
pub struct Response {
    /// The result of the request.
    pub result: Option<String>,
    /// An error if it occurred.
    pub error: Option<String>,
    /// Identifier for this response. It should match that of the associated request.
    pub id: Option<usize>,
}

/// Why decoding one value from the connection failed.
#[derive(Debug, Clone, Copy, PartialEq, Eq)]
pub enum FailureKind {
    /// The connection's deadline passed before any byte of a value arrived.
    TimedOut,
    /// Reading from the connection failed.
    Io,
    /// The connection ended in the middle of a value.
    Eof,
    /// The bytes were not JSON.
    Syntax,
    /// The JSON did not have the shape of a response.
    Data,
}

/// What one attempt to decode a response from the connection produced.
#[derive(Debug, Clone)]
pub enum Received {
    /// A complete response.
    Message(Response),
    /// The connection ended before any value began.
    Ended,
    /// Decoding failed; `detail` describes how.
    Failed { kind: FailureKind, detail: String },
}

/// The error that a receive ends in when no response came.
pub open spec fn receive_failure(kind: FailureKind, detail: Seq<char>) -> ErrorView {
    match kind {
        FailureKind::TimedOut => ErrorView::Timeout,
        FailureKind::Io | FailureKind::Eof => ErrorView::Socket(detail),
        FailureKind::Syntax | FailureKind::Data => ErrorView::Serialize(detail),
    }
}

/// What receiving gives: the response, or the error that stands for its absence.
pub open spec fn received_spec(received: Received) -> Result<Response, ErrorView> {
    match received {
        Received::Message(m) => Ok(m),
        Received::Ended => Err(ErrorView::Timeout),
        Received::Failed { kind, detail } => Err(receive_failure(kind, detail@)),
    }
}

/// The outcome of sending a request with id `id` and receiving `received`.
pub open spec fn exchange_spec(id: usize, received: Received) -> Result<Response, ErrorView> {
    match received_spec(received) {
        Err(e) => Err(e),
        Ok(m) => match m.id {
            None => Err(ErrorView::Protocol("id not found in response"@)),
            Some(k) => if k != id {
                Err(ErrorView::Protocol("request and response ids do not match"@))
            } else {
                Ok(m)
            },
        },
    }
}

pub open spec fn string_views(v: Seq<String>) -> Seq<Seq<char>> {
    v.map_values(|s: String| s@)
}

/// The outcome of a whole call: the exchange, then the daemon's own error
/// (when it gave a non-empty one), else the result.
pub open spec fn call_spec(request: Request, received: Received) -> Result<
    Option<Seq<char>>,
    ErrorView,
> {
    match exchange_spec(request.id, received) {
        Err(e) => Err(e),
        Ok(m) => match m.error {
            Some(e) if e@.len() > 0 => Err(
                ErrorView::Command {
                    cmd: request.method@,
                    params: joined(string_views(request.params@), ", "@),
                    error: e@,
                },
            ),
            _ => Ok(
                match m.result {
                    Some(t) => Some(t@),
                    None => None,
                },
            ),
        },
    }
}

/// The view of a call's result.
pub open spec fn call_view(r: Result<Option<String>, Error>) -> Result<
    Option<Seq<char>>,
    ErrorView,
> {
    match r {
        Ok(Some(t)) => Ok(Some(t@)),
        Ok(None) => Ok(None),
        Err(e) => Err(e@),
    }
}

/// The JSON text of a string: quotes around it, special characters escaped.
pub uninterp spec fn json_quoted(s: Seq<char>) -> Seq<char>;

/// Relies on `serde_json::to_string` applied to a `str`: the JSON string
/// literal for it. Serialising a string into the in-memory buffer that
/// `to_string` uses does not fail, so the error branch is never taken.
#[verifier::external_body]
fn quote(s: &str) -> (r: String)
    ensures
        r@ == json_quoted(s@),
{
    serde_json::to_string(s).unwrap_or_default()
}

/// The wire text of a request: one JSON object with its method, its
/// parameters as an array of strings, and its id.
pub open spec fn request_text(request: Request) -> Seq<char> {
    "{\"method\":"@ + json_quoted(request.method@) + ",\"params\":["@ + joined(
        string_views(request.params@).map_values(|p: Seq<char>| json_quoted(p)),
        ","@,
    ) + "],\"id\":"@ + decimal(request.id as nat) + "}"@
}

/// The JSON text to write on the connection for `request`.
pub fn encode_request(request: &Request) -> (r: String)
    ensures
        r@ == request_text(*request),
{
    let mut quoted: Vec<String> = Vec::new();
    let mut i: usize = 0;
    while i < request.params.len()
        invariant
            i <= request.params.len(),
            quoted@.len() == i,
            forall|k: int| 0 <= k < i ==> quoted@[k]@ == json_quoted(request.params@[k]@),
        decreases request.params.len() - i,
    {
        quoted.push(quote(request.params[i].as_str()));
        i = i + 1;
    }
    proof {
        assert(quoted@.map_values(|x: String| x@) =~= string_views(request.params@).map_values(
            |p: Seq<char>| json_quoted(p),
        ));
    }
    let mut out = "{\"method\":".to_owned();
    out.append(quote(request.method.as_str()).as_str());
    out.append(",\"params\":[");
    out.append(join(&quoted, ",").as_str());
    out.append("],\"id\":");
    push_decimal(&mut out, request.id);
    out.append("}");
    out
}

/// Maps what decoding produced to the response, or to the error that stands
/// for its absence: no value before the deadline is a timeout, a failure of
/// the connection (also one that cuts a value short) is a socket error, and
/// only bytes that are not a response are a serialisation error.
pub fn receive(received: Received) -> (r: Result<Response, Error>)
    ensures
        err_view(r) == received_spec(received),
{
    match received {
        Received::Message(m) => Ok(m),
        Received::Ended => Err(Error::Timeout),
        Received::Failed { kind, detail } => match kind {
            FailureKind::TimedOut => Err(Error::Timeout),
            FailureKind::Io | FailureKind::Eof => Err(Error::Socket(detail)),
            FailureKind::Syntax | FailureKind::Data => Err(Error::Serialize(detail)),
        },
    }
}

/// JSON-RPC client state: the ids handed out so far on one connection.
pub struct Client {
    last_id: usize,
    ids: Ghost<Seq<usize>>,
}

impl Client {
    /// The ids of the requests built so far, in order.
    pub closed spec fn issued(&self) -> Seq<usize> {
        self.ids@
    }

    pub closed spec fn wf(&self) -> bool {
        &&& self.last_id == self.ids@.len() + 1
        &&& forall|i: int| 0 <= i < self.ids@.len() ==> self.ids@[i] == i + 1
    }

    /// Whether another id can be handed out.
    pub open spec fn has_ids_left(&self) -> bool {
        self.issued().len() + 2 <= usize::MAX
    }

    /// A client on a freshly opened connection.
    pub fn new() -> (r: Client)
        ensures
            r.wf(),
            r.issued() == Seq::<usize>::empty(),
    {
        Client { last_id: 1, ids: Ghost(Seq::empty()) }
    }

    /// The id that the next request will carry.
    pub fn next_id(&self) -> (r: usize)
        requires
            self.wf(),
        ensures
            r == self.issued().len() + 1,
    {
        self.last_id
    }

    pub fn can_issue(&self) -> (r: bool)
        requires
            self.wf(),
        ensures
            r == self.has_ids_left(),
    {
        self.last_id < usize::MAX
    }

    /// Builds a request with the given method and parameters, under the next id.
    pub fn build_request(&mut self, method: &str, params: &Vec<String>) -> (r: Request)
        requires
            old(self).wf(),
            old(self).has_ids_left(),
        ensures
            final(self).wf(),
            r.method@ == method@,
            r.params@ == params@,
            r.id == old(self).issued().len() + 1,
            final(self).issued() == old(self).issued().push(r.id),
    {
        let id = self.last_id;
        self.last_id = id + 1;
        self.ids = Ghost(self.ids@.push(id));
        Request { method: method.to_owned(), params: params.clone(), id }
    }

    /// Judges the response received for `request`: it must carry the
    /// request's id.
    pub fn send_request(&self, request: &Request, received: Received) -> (r: Result<
        Response,
        Error,
    >)
        ensures
            err_view(r) == exchange_spec(request.id, received),
    {
        let m = receive(received)?;
        match m.id {
            None => Err(Error::Protocol("id not found in response".to_owned())),
            Some(k) => if k != request.id {
                Err(Error::Protocol("request and response ids do not match".to_owned()))
            } else {
                Ok(m)
            },
        }
    }

    /// Judges a whole call: the exchange, then the daemon's error, then the result.
    pub fn call_params(&self, request: &Request, received: Received) -> (r: Result<
        Option<String>,
        Error,
    >)
        ensures
            call_view(r) == call_spec(*request, received),
    {
        let m = self.send_request(request, received)?;
        match m.error {
            Some(e) => if e.unicode_len() > 0 {
                return Err(
                    Error::Command {
                        cmd: request.method.clone(),
                        params: join(&request.params, ", "),
                        error: e,
                    },
                );
            },
            None => {},
        }
        Ok(m.result)
    }
}

/// Ids are handed out in call order: the `i`-th request built on a client
/// carries the id `i + 1`.
pub proof fn lemma_ids_in_call_order(c: &Client)
    requires
        c.wf(),
    ensures
        forall|i: int| 0 <= i < c.issued().len() ==> #[trigger] c.issued()[i] == i + 1,
{
}

/// A response without an id ends the call in a protocol error, whatever its
/// result and error hold.
pub proof fn lemma_missing_id_is_protocol_error(request: Request, response: Response)
    requires
        response.id is None,
    ensures
        call_spec(request, Received::Message(response)) == Err::<Option<Seq<char>>, ErrorView>(
            ErrorView::Protocol("id not found in response"@),
        ),
{
}

/// A response whose id is not the request's ends the call in a protocol
/// error, whatever its result and error hold.
pub proof fn lemma_foreign_id_is_protocol_error(request: Request, response: Response)
    requires
        response.id is Some,
        response.id->0 != request.id,
    ensures
        call_spec(request, Received::Message(response)) == Err::<Option<Seq<char>>, ErrorView>(
            ErrorView::Protocol("request and response ids do not match"@),
        ),
{
}

/// Silence until the deadline, or a connection that ends before any value,
/// is a timeout: never a socket or decoding error.
pub proof fn lemma_silence_is_timeout(detail: String)
    ensures
        received_spec(Received::Ended) == Err::<Response, ErrorView>(ErrorView::Timeout),
        received_spec(Received::Failed { kind: FailureKind::TimedOut, detail })
            == Err::<Response, ErrorView>(ErrorView::Timeout),
{
}

/// A connection that ends in the middle of a value is a socket error, not a
/// decoding error.
pub proof fn lemma_cut_short_is_socket_error(detail: String)
    ensures
        received_spec(Received::Failed { kind: FailureKind::Eof, detail })
            == Err::<Response, ErrorView>(ErrorView::Socket(detail@)),
{
}

} // verus!
