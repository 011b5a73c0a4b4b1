use vstd::prelude::*;
use vstd::string::*;
use crate::decode::{response_body_text, response_text};
use crate::record::{format_record, record_line};
use crate::stream::OnIterationComplete;

verus! {

/// Log lines as the contracts see them.
pub open spec fn lines_of(records: Seq<String>) -> Seq<Seq<char>> {
    records.map_values(|s: String| s@)
}

/// A completion handler as the contracts see it: what it was made with, the
/// log lines it has formed and not yet given away, and the bodies it received.
pub struct HandlerView {
    pub gzip: bool,
    pub method: Seq<char>,
    pub query: Seq<char>,
    pub request_data: Seq<char>,
    pub lines: Seq<Seq<char>>,
    pub deliveries: Seq<Seq<u8>>,
}

/// The policy on empty bodies: a response without a single byte leaves no
/// line in the log.
pub open spec fn is_logged(data: Seq<u8>) -> bool {
    data.len() > 0
}

/// The log line that a handler forms for a buffered body, if it forms one.
pub open spec fn record_for(h: HandlerView, data: Seq<u8>) -> Option<Seq<char>> {
    if is_logged(data) {
        Some(record_line(h.method, h.query, h.request_data, response_text(h.gzip, data)))
    } else {
        None
    }
}

/// The lines that a handler holds after it has received `data`.
pub open spec fn lines_after(h: HandlerView, data: Seq<u8>) -> Seq<Seq<char>> {
    match record_for(h, data) {
        Some(line) => h.lines.push(line),
        None => h.lines,
    }
}

/// The completion handler of one proxied request. It keeps the request's
/// method, address and body text, and turns the buffered response body into
/// the request's log line.
pub struct CompleteHandler {
    gzip: bool,
    method: String,
    query: String,
    request_data: String,
    records: Vec<String>,
    seen: Ghost<Seq<Seq<u8>>>,
}

impl View for CompleteHandler {
    type V = HandlerView;

    closed spec fn view(&self) -> HandlerView {
        HandlerView {
            gzip: self.gzip,
            method: self.method@,
            query: self.query@,
            request_data: self.request_data@,
            lines: lines_of(self.records@),
            deliveries: self.seen@,
        }
    }
}

impl CompleteHandler {
    pub fn new(gzip: bool, method: String, query: String, request_data: String) -> (h:
        CompleteHandler)
        ensures
            h@ == (HandlerView {
                gzip,
                method: method@,
                query: query@,
                request_data: request_data@,
                lines: Seq::empty(),
                deliveries: Seq::empty(),
            }),
    {
        let h = CompleteHandler {
            gzip,
            method,
            query,
            request_data,
            records: Vec::new(),
            seen: Ghost(Seq::empty()),
        };
        assert(lines_of(h.records@) =~= Seq::empty());
        h
    }

    /// The log line for a buffered response body; none for an empty body.
    pub fn log_record(&self, data: &[u8]) -> (r: Option<String>)
        ensures
            r is Some <==> is_logged(data@),
            match r {
                Some(line) => Some(line@),
                None => None,
            } == record_for(self@, data@),
    {
        if data.len() == 0 {
            return None;
        }
        let response_data = response_body_text(self.gzip, data);
        Some(
            format_record(
                self.method.as_str(),
                self.query.as_str(),
                self.request_data.as_str(),
                response_data.as_str(),
            ),
        )
    }

    /// The log lines formed so far, oldest first.
    pub fn records(&self) -> (r: &Vec<String>)
        ensures
            lines_of(r@) == self@.lines,
    {
        &self.records
    }

    /// Gives the log lines formed so far away, oldest first, and keeps none.
    pub fn take_records(&mut self) -> (r: Vec<String>)
        ensures
            lines_of(r@) == old(self)@.lines,
            final(self)@ == (HandlerView { lines: Seq::empty(), ..old(self)@ }),
    {
        let mut taken: Vec<String> = Vec::new();
        std::mem::swap(&mut taken, &mut self.records);
        assert(lines_of(self.records@) =~= Seq::empty());
        taken
    }
}

impl OnIterationComplete for CompleteHandler {
    open spec fn deliveries(&self) -> Seq<Seq<u8>> {
        self@.deliveries
    }

    /// One call adds the body to the history and its log line, if it has
    /// one, to the lines; what the handler was made with stays.
    open spec fn completes(&self, data: Seq<u8>, after: &Self) -> bool {
        after@ == (HandlerView {
            lines: lines_after(self@, data),
            deliveries: self@.deliveries.push(data),
            ..self@
        })
    }

    /// Receives the buffered body of the response: forms its log line, unless
    /// the body is empty, and keeps it for the log sink.
    fn on_iteration_complete(&mut self, data: Vec<u8>) {
        let line = self.log_record(data.as_slice());
        proof {
            self.seen@ = self.seen@.push(data@);
        }
        if let Some(text) = line {
            proof {
                assert(lines_of(self.records@.push(text)) =~= lines_of(self.records@).push(text@));
            }
            self.records.push(text);
        }
    }
}

} // verus!
