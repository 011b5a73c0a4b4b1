use vstd::prelude::*;
use vstd::string::*;
use crate::completion::{CompleteHandler, HandlerView};
use crate::config::AppState;
use crate::headers::{
    announces_gzip, extra_view, forward_headers, is_gzip, outbound_headers, raw_headers,
    readable_headers, text_headers, text_pairs, Header,
};
use crate::method::{method_of, Method};
use crate::stream::{fresh, CompletableStream};
use crate::target::{format_target_url, opt_text, target_url};
use crate::text::{lossy_text, utf8_lossy};

verus! {

/// A request as it arrives at the proxy.
pub struct InboundRequest {
    /// The method, as received.
    pub method: String,
    pub path: String,
    pub query: Option<String>,
    /// The request target as received: what the log names.
    pub uri: String,
    pub headers: Vec<Header>,
    pub body: Vec<u8>,
}

/// The request that goes upstream.
pub struct OutboundRequest {
    pub method: Method,
    pub url: String,
    pub headers: Vec<(String, String)>,
    pub body: Option<Vec<u8>>,
    pub timeout_minutes: u64,
}

/// What the log keeps of a request while its response streams.
pub struct LogContext {
    pub method: String,
    pub url: String,
    pub request_body: String,
}

/// A request ready to be sent, with what its log line will need.
pub struct Dispatch {
    pub request: OutboundRequest,
    pub context: LogContext,
}

/// An outbound request as the contracts see it.
pub struct OutboundView {
    pub method: Method,
    pub url: Seq<char>,
    pub headers: Seq<(Seq<char>, Seq<char>)>,
    pub body: Option<Seq<u8>>,
    pub timeout_minutes: u64,
}

/// A log context as the contracts see it.
pub struct ContextView {
    pub method: Seq<char>,
    pub url: Seq<char>,
    pub request_body: Seq<char>,
}

impl View for OutboundRequest {
    type V = OutboundView;

    open spec fn view(&self) -> OutboundView {
        OutboundView {
            method: self.method,
            url: self.url@,
            headers: text_pairs(self.headers@),
            body: match self.body {
                Some(bytes) => Some(bytes@),
                None => None,
            },
            timeout_minutes: self.timeout_minutes,
        }
    }
}

impl View for LogContext {
    type V = ContextView;

    open spec fn view(&self) -> ContextView {
        ContextView { method: self.method@, url: self.url@, request_body: self.request_body@ }
    }
}

impl View for Dispatch {
    type V = (OutboundView, ContextView);

    open spec fn view(&self) -> (OutboundView, ContextView) {
        (self.request@, self.context@)
    }
}

/// Why a request gets no streamed response.
#[derive(Debug)]
pub enum ProxyError {
    /// The target address could not be formed.
    UrlFormat,
    /// The method, named here, is not relayed.
    UnsupportedMethod(String),
    /// The upstream could not be reached, or did not answer in time.
    Dispatch,
    /// The upstream answered with a status that is no HTTP status.
    InvalidStatus,
}

impl ProxyError {
    /// The status of the reply that reports this error.
    pub open spec fn code(self) -> u16 {
        match self {
            ProxyError::UrlFormat => 500,
            ProxyError::UnsupportedMethod(_) => 400,
            ProxyError::Dispatch => 502,
            ProxyError::InvalidStatus => 500,
        }
    }

    /// The text of the reply that reports this error, where it has one.
    pub open spec fn text(self) -> Option<Seq<char>> {
        match self {
            ProxyError::UrlFormat => Some("URL formatting error"@),
            ProxyError::UnsupportedMethod(method) => Some("Unsupported method: "@ + method@),
            ProxyError::Dispatch => Some("Request execution error to target server"@),
            ProxyError::InvalidStatus => None,
        }
    }

    pub fn status(&self) -> (r: u16)
        ensures
            r == self.code(),
    {
        match self {
            ProxyError::UrlFormat => 500,
            ProxyError::UnsupportedMethod(_) => 400,
            ProxyError::Dispatch => 502,
            ProxyError::InvalidStatus => 500,
        }
    }

    pub fn message(&self) -> (r: Option<String>)
        ensures
            opt_text(r) == self.text(),
    {
        match self {
            ProxyError::UrlFormat => Some(String::from_str("URL formatting error")),
            ProxyError::UnsupportedMethod(method) => {
                let mut out = String::from_str("Unsupported method: ");
                out.append(method.as_str());
                Some(out)
            },
            ProxyError::Dispatch => Some(
                String::from_str("Request execution error to target server"),
            ),
            ProxyError::InvalidStatus => None,
        }
    }
}

/// The body that goes upstream: the inbound one, verbatim, for a verb that
/// carries a body and a body that is not empty; none otherwise.
pub open spec fn attached_body(method: Method, body: Seq<u8>) -> Option<Seq<u8>> {
    if method.carries_body() && body.len() > 0 {
        Some(body)
    } else {
        None
    }
}

/// What becomes of an inbound request once its target address is known
/// (`target`; none where it could not be formed): the request to send and the
/// log context, or the error to report. A target that could not be formed is
/// reported before an unsupported method is.
pub open spec fn plan(state: AppState, req: InboundRequest, target: Option<Seq<char>>) -> Result<
    (OutboundView, ContextView),
    ProxyError,
> {
    match target {
        None => Err(ProxyError::UrlFormat),
        Some(url) => match method_of(req.method@) {
            None => Err(ProxyError::UnsupportedMethod(req.method)),
            Some(method) => Ok(
                (
                    OutboundView {
                        method,
                        url,
                        headers: outbound_headers(
                            raw_headers(req.headers@),
                            extra_view(state.additional_header),
                        ),
                        body: attached_body(method, req.body@),
                        timeout_minutes: state.request_timeout_minutes,
                    },
                    ContextView {
                        method: req.method@,
                        url: req.uri@,
                        request_body: utf8_lossy(req.body@),
                    },
                ),
            ),
        },
    }
}

/// The outcome of planning as the contracts see it.
pub open spec fn plan_view(r: Result<Dispatch, ProxyError>) -> Result<
    (OutboundView, ContextView),
    ProxyError,
> {
    match r {
        Ok(d) => Ok(d@),
        Err(e) => Err(e),
    }
}

/// The body to attach to the outbound request.
pub fn outbound_body(method: Method, body: &Vec<u8>) -> (r: Option<Vec<u8>>)
    ensures
        match r {
            Some(bytes) => Some(bytes@),
            None => None,
        } == attached_body(method, body@),
{
    if method.may_carry_body() && body.len() > 0 {
        let copy = body.clone();
        assert(copy@ =~= body@);
        Some(copy)
    } else {
        None
    }
}

/// Plans the outbound request for an inbound one whose target address has
/// been resolved, or says why none is sent.
pub fn plan_request(state: &AppState, req: &InboundRequest, target: Option<String>) -> (r: Result<
    Dispatch,
    ProxyError,
>)
    ensures
        plan_view(r) == plan(*state, *req, opt_text(target)),
{
    let url = match target {
        Some(url) => url,
        None => {
            return Err(ProxyError::UrlFormat);
        },
    };
    let method = match Method::parse(req.method.as_str()) {
        Some(method) => method,
        None => {
            return Err(ProxyError::UnsupportedMethod(req.method.clone()));
        },
    };
    let request = OutboundRequest {
        method,
        url,
        headers: forward_headers(&req.headers, &state.additional_header),
        body: outbound_body(method, &req.body),
        timeout_minutes: state.request_timeout_minutes,
    };
    let context = LogContext {
        method: req.method.clone(),
        url: req.uri.clone(),
        request_body: lossy_text(req.body.as_slice()),
    };
    Ok(Dispatch { request, context })
}

/// The first half of handling a request: resolves the target address and
/// plans the outbound request. Nothing has been sent when this returns, and
/// on an error nothing is to be sent.
pub fn proxy_handler(state: &AppState, req: &InboundRequest) -> (r: Result<Dispatch, ProxyError>)
    ensures
        plan_view(r) == plan(
            *state,
            *req,
            target_url(state.target_url@, req.path@, opt_text(req.query)),
        ),
{
    let target = format_target_url(state.target_url.as_str(), req.path.as_str(), &req.query);
    plan_request(state, req, target)
}

/// What sending the outbound request came to.
pub enum Upstream {
    /// The upstream answered with this status and these headers.
    Responded { status: u16, headers: Vec<Header> },
    /// The request could not be delivered, or no answer came in time.
    Failed,
}

/// The reply that streams the upstream body to the caller.
pub struct StreamingResponse {
    pub status: u16,
    pub headers: Vec<(String, String)>,
    /// The tee that the body's chunks pass through.
    pub stream: CompletableStream<CompleteHandler>,
}

/// Whether a number is an HTTP status.
pub open spec fn is_status(code: u16) -> bool {
    100 <= code && code < 1000
}

/// Whether `resp` is the reply to a request with the log context `context`
/// whose upstream answered with `status` and `headers`: the same status, the
/// headers with a text value, and a tee that has seen nothing, with a handler
/// that knows the request and whether the body is compressed.
pub open spec fn streams(
    resp: StreamingResponse,
    context: ContextView,
    status: u16,
    headers: Seq<Header>,
) -> bool {
    &&& resp.status == status
    &&& text_pairs(resp.headers@) == readable_headers(raw_headers(headers))
    &&& resp.stream@ == fresh(Seq::empty())
    &&& resp.stream.spec_handler()@ == (HandlerView {
        gzip: announces_gzip(raw_headers(headers)),
        method: context.method,
        query: context.url,
        request_data: context.request_body,
        lines: Seq::empty(),
        deliveries: Seq::empty(),
    })
}

/// The second half of handling a request: turns what sending came to into the
/// streamed reply, or into the error to report.
pub fn on_upstream(context: LogContext, upstream: Upstream) -> (r: Result<
    StreamingResponse,
    ProxyError,
>)
    ensures
        match upstream {
            Upstream::Failed => r matches Err(e) && e == ProxyError::Dispatch,
            Upstream::Responded { status, headers } => if is_status(status) {
                r matches Ok(resp) && streams(resp, context@, status, headers@)
            } else {
                r matches Err(e) && e == ProxyError::InvalidStatus
            },
        },
{
    match upstream {
        Upstream::Failed => Err(ProxyError::Dispatch),
        Upstream::Responded { status, headers } => {
            if status < 100 || status >= 1000 {
                return Err(ProxyError::InvalidStatus);
            }
            let gzip = is_gzip(&headers);
            let copied = text_headers(&headers);
            let handler = CompleteHandler::new(
                gzip,
                context.method,
                context.url,
                context.request_body,
            );
            Ok(StreamingResponse { status, headers: copied, stream: CompletableStream::new(handler) })
        },
    }
}

} // verus!
