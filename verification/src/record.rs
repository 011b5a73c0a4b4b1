use vstd::prelude::*;
use vstd::string::*;
use crate::text::push_char;

verus! {

/// A text with every `"` written twice, as a CSV field holds it.
pub open spec fn doubled_quotes(s: Seq<char>) -> Seq<char>
    decreases s.len(),
{
    if s.len() == 0 {
        Seq::empty()
    } else if s.last() == '"' {
        doubled_quotes(s.drop_last()).push('"').push('"')
    } else {
        doubled_quotes(s.drop_last()).push(s.last())
    }
}

/// An escaped field between two `"`.
pub open spec fn quoted(s: Seq<char>) -> Seq<char> {
    seq!['"'] + doubled_quotes(s) + seq!['"']
}

/// One line of the log: the four fields, escaped, the last two quoted,
/// separated by commas and closed by a line feed.
pub open spec fn record_line(
    method: Seq<char>,
    url: Seq<char>,
    request_body: Seq<char>,
    response_body: Seq<char>,
) -> Seq<char> {
    doubled_quotes(method) + seq![','] + doubled_quotes(url) + seq![','] + quoted(request_body)
        + seq![','] + quoted(response_body) + seq!['\n']
}

/// How many `"` a text holds.
pub open spec fn quotes(s: Seq<char>) -> nat
    decreases s.len(),
{
    if s.len() == 0 {
        0
    } else if s.last() == '"' {
        quotes(s.drop_last()) + 1
    } else {
        quotes(s.drop_last())
    }
}

proof fn lemma_quotes_concat(a: Seq<char>, b: Seq<char>)
    ensures
        quotes(a + b) == quotes(a) + quotes(b),
    decreases b.len(),
{
    if b.len() == 0 {
        assert(a + b == a);
    } else {
        assert((a + b).drop_last() == a + b.drop_last());
        lemma_quotes_concat(a, b.drop_last());
    }
}

proof fn lemma_quotes_single(c: char)
    ensures
        quotes(seq![c]) == if c == '"' { 1nat } else { 0nat },
{
    assert(seq![c].drop_last() == Seq::<char>::empty());
    reveal_with_fuel(quotes, 2);
}

proof fn lemma_escaped_quotes(s: Seq<char>)
    ensures
        quotes(doubled_quotes(s)) == 2 * quotes(s),
    decreases s.len(),
{
    if s.len() > 0 {
        let init = doubled_quotes(s.drop_last());
        lemma_escaped_quotes(s.drop_last());
        if s.last() == '"' {
            let once = init.push('"');
            assert(once.drop_last() == init);
            assert(once.push('"').drop_last() == once);
            assert(quotes(once) == quotes(init) + 1);
            assert(quotes(once.push('"')) == quotes(once) + 1);
        } else {
            let next = init.push(s.last());
            assert(next.drop_last() == init);
            assert(quotes(next) == quotes(init));
        }
    }
}

/// Every log line is closed: it ends with a line feed, and its `"` pair up,
/// so that a reader of the log is outside every quoted field when the line
/// ends, whatever the four fields hold.
pub proof fn lemma_record_is_closed(
    method: Seq<char>,
    url: Seq<char>,
    request_body: Seq<char>,
    response_body: Seq<char>,
)
    ensures
        record_line(method, url, request_body, response_body).last() == '\n',
        quotes(record_line(method, url, request_body, response_body)) == 2 * (quotes(method)
            + quotes(url) + quotes(request_body) + quotes(response_body) + 2),
{
    let q = seq!['"'];
    let c = seq![','];
    let m = doubled_quotes(method);
    let u = doubled_quotes(url);
    let a = doubled_quotes(request_body);
    let b = doubled_quotes(response_body);
    lemma_escaped_quotes(method);
    lemma_escaped_quotes(url);
    lemma_escaped_quotes(request_body);
    lemma_escaped_quotes(response_body);
    lemma_quotes_single('"');
    lemma_quotes_single(',');
    lemma_quotes_single('\n');
    lemma_quotes_concat(q, a);
    lemma_quotes_concat(q + a, q);
    lemma_quotes_concat(q, b);
    lemma_quotes_concat(q + b, q);
    lemma_quotes_concat(m, c);
    lemma_quotes_concat(m + c, u);
    lemma_quotes_concat(m + c + u, c);
    lemma_quotes_concat(m + c + u + c, quoted(request_body));
    lemma_quotes_concat(m + c + u + c + quoted(request_body), c);
    lemma_quotes_concat(m + c + u + c + quoted(request_body) + c, quoted(response_body));
    lemma_quotes_concat(
        m + c + u + c + quoted(request_body) + c + quoted(response_body),
        seq!['\n'],
    );
}

/// Appends the escaped form of `s` to `out`.
fn push_escaped(out: &mut String, s: &str)
    ensures
        final(out)@ == old(out)@ + doubled_quotes(s@),
{
    let ghost start = out@;
    for c in it: s.chars()
        invariant
            it.seq() == s@,
            out@ == start + doubled_quotes(s@.take(it.index() as int)),
    {
        proof {
            let k = it.index() as int;
            assert(s@.take(k + 1).drop_last() == s@.take(k));
            assert(s@.take(k + 1).last() == c);
        }
        if c == '"' {
            push_char(out, '"');
            push_char(out, '"');
        } else {
            push_char(out, c);
        }
    }
    proof {
        assert(s@.take(s@.len() as int) == s@);
    }
}

/// The text with every `"` doubled.
pub fn escape_quotes(s: &str) -> (r: String)
    ensures
        r@ == doubled_quotes(s@),
{
    let mut out = String::new();
    push_escaped(&mut out, s);
    out
}

/// The log line of one proxied request.
pub fn format_record(method: &str, url: &str, request_body: &str, response_body: &str) -> (r:
    String)
    ensures
        r@ == record_line(method@, url@, request_body@, response_body@),
{
    let mut out = String::new();
    push_escaped(&mut out, method);
    push_char(&mut out, ',');
    push_escaped(&mut out, url);
    push_char(&mut out, ',');
    push_char(&mut out, '"');
    push_escaped(&mut out, request_body);
    push_char(&mut out, '"');
    push_char(&mut out, ',');
    push_char(&mut out, '"');
    push_escaped(&mut out, response_body);
    push_char(&mut out, '"');
    push_char(&mut out, '\n');
    assert(out@ =~= record_line(method@, url@, request_body@, response_body@));
    out
}

} // verus!
