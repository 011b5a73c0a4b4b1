use vstd::prelude::*;
use vstd::string::*;
use crate::text::{eq_ignore_case, push_char, same_ignoring_case};

verus! {

/// A header as it arrives: a name and the raw bytes of its value.
pub struct Header {
    pub name: String,
    pub value: Vec<u8>,
}

/// A header as the contracts see it.
pub struct RawHeader {
    pub name: Seq<char>,
    pub value: Seq<u8>,
}

impl View for Header {
    type V = RawHeader;

    open spec fn view(&self) -> RawHeader {
        RawHeader { name: self.name@, value: self.value@ }
    }
}

/// A header collection as the contracts see it.
pub open spec fn raw_headers(headers: Seq<Header>) -> Seq<RawHeader> {
    headers.map_values(|h: Header| h@)
}

/// Name and value pairs as the contracts see them.
pub open spec fn text_pairs(pairs: Seq<(String, String)>) -> Seq<(Seq<char>, Seq<char>)> {
    pairs.map_values(|p: (String, String)| (p.0@, p.1@))
}

/// The configured additional header as the contracts see it.
pub open spec fn extra_view(extra: Option<(String, String)>) -> Option<(Seq<char>, Seq<char>)> {
    match extra {
        Some(pair) => Some((pair.0@, pair.1@)),
        None => None,
    }
}

/// A byte that may stand in a header value read as text: a visible ASCII
/// character, a space or a tab.
pub open spec fn visible(b: u8) -> bool {
    (32 <= b && b < 127) || b == 9
}

/// Whether a header value can be represented as text.
pub open spec fn is_text(value: Seq<u8>) -> bool {
    forall|i: int| 0 <= i < value.len() ==> visible(#[trigger] value[i])
}

/// A header value read as text, byte by byte.
pub open spec fn as_text(value: Seq<u8>) -> Seq<char> {
    value.map_values(|b: u8| b as char)
}

/// A header with a text value as a name and value pair.
pub open spec fn as_pair(h: RawHeader) -> (Seq<char>, Seq<char>) {
    (h.name, as_text(h.value))
}

/// Whether an inbound header goes upstream: not `Host`, not the configured
/// additional header under any spelling of its name, and with a text value.
pub open spec fn is_forwarded(h: RawHeader, extra: Option<(Seq<char>, Seq<char>)>) -> bool {
    &&& !eq_ignore_case(h.name, "host"@)
    &&& extra matches Some(pair) ==> !eq_ignore_case(h.name, pair.0)
    &&& is_text(h.value)
}

/// The headers of the outbound request: the inbound ones that are
/// forwarded, in their order, then the configured additional header.
pub open spec fn outbound_headers(
    inbound: Seq<RawHeader>,
    extra: Option<(Seq<char>, Seq<char>)>,
) -> Seq<(Seq<char>, Seq<char>)> {
    let copied = inbound.filter(|h: RawHeader| is_forwarded(h, extra)).map_values(
        |h: RawHeader| as_pair(h),
    );
    match extra {
        Some(pair) => copied.push(pair),
        None => copied,
    }
}

/// The headers with a text value, in their order, as pairs.
pub open spec fn readable_headers(headers: Seq<RawHeader>) -> Seq<(Seq<char>, Seq<char>)> {
    headers.filter(|h: RawHeader| is_text(h.value)).map_values(|h: RawHeader| as_pair(h))
}

/// Whether a header says that the body is gzip-compressed.
pub open spec fn says_gzip(h: RawHeader) -> bool {
    &&& eq_ignore_case(h.name, "content-encoding"@)
    &&& is_text(h.value)
    &&& eq_ignore_case(as_text(h.value), "gzip"@)
}

/// Whether a response with these headers has a gzip-compressed body.
pub open spec fn announces_gzip(headers: Seq<RawHeader>) -> bool {
    exists|i: int| 0 <= i < headers.len() && says_gzip(#[trigger] headers[i])
}

/// How many of the outbound headers were copied from the inbound request.
pub open spec fn copied_len(inbound: Seq<RawHeader>, extra: Option<(Seq<char>, Seq<char>)>) -> int {
    match extra {
        Some(_) => outbound_headers(inbound, extra).len() - 1,
        None => outbound_headers(inbound, extra).len() as int,
    }
}

/// Header filtering: no copied header is named `Host`, under any spelling.
/// Where an additional header is configured, no copied header bears its name
/// under any spelling, and the outbound headers end with it: the configured
/// value is sent once, never shadowed and never doubled.
pub proof fn lemma_header_filtering(inbound: Seq<RawHeader>, extra: Option<(Seq<char>, Seq<char>)>)
    ensures
        0 <= copied_len(inbound, extra),
        extra matches Some(pair) ==> outbound_headers(inbound, extra).last() == pair,
        forall|i: int|
            0 <= i < copied_len(inbound, extra) ==> {
                let name = (#[trigger] outbound_headers(inbound, extra)[i]).0;
                &&& !eq_ignore_case(name, "host"@)
                &&& extra matches Some(pair) ==> !eq_ignore_case(name, pair.0)
            },
{
    let keep = |h: RawHeader| is_forwarded(h, extra);
    let kept = inbound.filter(keep);
    let copied = kept.map_values(|h: RawHeader| as_pair(h));
    let out = outbound_headers(inbound, extra);
    assert forall|i: int| 0 <= i < copied_len(inbound, extra) implies {
        let name = (#[trigger] out[i]).0;
        &&& !eq_ignore_case(name, "host"@)
        &&& extra matches Some(pair) ==> !eq_ignore_case(name, pair.0)
    } by {
        inbound.lemma_filter_pred(keep, i);
        assert(out[i] == copied[i]);
        assert(copied[i] == as_pair(kept[i]));
        assert(is_forwarded(kept[i], extra));
    }
}

/// The value of a header as text, where it can be represented so.
pub fn header_text(value: &[u8]) -> (r: Option<String>)
    ensures
        r is Some <==> is_text(value@),
        r matches Some(text) ==> text@ == as_text(value@),
{
    let mut out = String::new();
    let mut i: usize = 0;
    while i < value.len()
        invariant
            i <= value.len(),
            is_text(value@.take(i as int)),
            out@ == as_text(value@.take(i as int)),
        decreases value.len() - i,
    {
        let b = value[i];
        if !((32 <= b && b < 127) || b == 9) {
            return None;
        }
        push_char(&mut out, b as char);
        proof {
            assert(value@.take(i + 1) == value@.take(i as int).push(b));
            assert(as_text(value@.take(i + 1)) =~= as_text(value@.take(i as int)).push(b as char));
        }
        i += 1;
    }
    proof {
        assert(value@.take(i as int) == value@);
    }
    Some(out)
}

/// Whether an inbound header goes upstream.
pub fn forwards(header: &Header, extra: &Option<(String, String)>) -> (r: Option<String>)
    ensures
        r is Some <==> is_forwarded(header@, extra_view(*extra)),
        r matches Some(text) ==> text@ == as_text(header.value@),
{
    if same_ignoring_case(header.name.as_str(), "host") {
        return None;
    }
    if let Some(pair) = extra {
        if same_ignoring_case(header.name.as_str(), pair.0.as_str()) {
            return None;
        }
    }
    header_text(header.value.as_slice())
}

/// Builds the headers of the outbound request.
pub fn forward_headers(inbound: &Vec<Header>, extra: &Option<(String, String)>) -> (r: Vec<
    (String, String),
>)
    ensures
        text_pairs(r@) == outbound_headers(raw_headers(inbound@), extra_view(*extra)),
{
    let mut out: Vec<(String, String)> = Vec::new();
    let ghost all = raw_headers(inbound@);
    let ghost keep = |h: RawHeader| is_forwarded(h, extra_view(*extra));
    let ghost pair_of = |h: RawHeader| as_pair(h);
    let mut i: usize = 0;
    while i < inbound.len()
        invariant
            i <= inbound.len(),
            all == raw_headers(inbound@),
            keep == (|h: RawHeader| is_forwarded(h, extra_view(*extra))),
            pair_of == (|h: RawHeader| as_pair(h)),
            text_pairs(out@) == all.take(i as int).filter(keep).map_values(pair_of),
        decreases inbound.len() - i,
    {
        let header = &inbound[i];
        let ghost before = all.take(i as int);
        proof {
            assert(all.take(i + 1) == before.push(header@));
            before.lemma_filter_push(header@, keep);
        }
        if let Some(text) = forwards(header, extra) {
            proof {
                before.filter(keep).lemma_push_map_commute(pair_of, header@);
                assert(text_pairs(out@.push((header.name, text))) =~= text_pairs(out@).push(
                    (header.name@, text@),
                ));
            }
            out.push((header.name.clone(), text));
        }
        i += 1;
    }
    proof {
        assert(all.take(i as int) == all);
    }
    if let Some(pair) = extra {
        proof {
            assert(text_pairs(out@.push(*pair)) =~= text_pairs(out@).push((pair.0@, pair.1@)));
        }
        out.push((pair.0.clone(), pair.1.clone()));
    }
    out
}

/// The headers that can be copied onto a reply: those with a text value.
pub fn text_headers(headers: &Vec<Header>) -> (r: Vec<(String, String)>)
    ensures
        text_pairs(r@) == readable_headers(raw_headers(headers@)),
{
    let mut out: Vec<(String, String)> = Vec::new();
    let ghost all = raw_headers(headers@);
    let ghost keep = |h: RawHeader| is_text(h.value);
    let ghost pair_of = |h: RawHeader| as_pair(h);
    let mut i: usize = 0;
    while i < headers.len()
        invariant
            i <= headers.len(),
            all == raw_headers(headers@),
            keep == (|h: RawHeader| is_text(h.value)),
            pair_of == (|h: RawHeader| as_pair(h)),
            text_pairs(out@) == all.take(i as int).filter(keep).map_values(pair_of),
        decreases headers.len() - i,
    {
        let header = &headers[i];
        let ghost before = all.take(i as int);
        proof {
            assert(all.take(i + 1) == before.push(header@));
            before.lemma_filter_push(header@, keep);
        }
        if let Some(text) = header_text(header.value.as_slice()) {
            proof {
                before.filter(keep).lemma_push_map_commute(pair_of, header@);
                assert(text_pairs(out@.push((header.name, text))) =~= text_pairs(out@).push(
                    (header.name@, text@),
                ));
            }
            out.push((header.name.clone(), text));
        }
        i += 1;
    }
    proof {
        assert(all.take(i as int) == all);
    }
    out
}

/// Whether one header says that the body is gzip-compressed.
pub fn header_says_gzip(header: &Header) -> (r: bool)
    ensures
        r == says_gzip(header@),
{
    if !same_ignoring_case(header.name.as_str(), "content-encoding") {
        return false;
    }
    match header_text(header.value.as_slice()) {
        Some(text) => same_ignoring_case(text.as_str(), "gzip"),
        None => false,
    }
}

/// Whether a response with these headers has a gzip-compressed body.
pub fn is_gzip(headers: &Vec<Header>) -> (r: bool)
    ensures
        r == announces_gzip(raw_headers(headers@)),
{
    let mut i: usize = 0;
    while i < headers.len()
        invariant
            i <= headers.len(),
            forall|j: int| 0 <= j < i ==> !says_gzip(#[trigger] raw_headers(headers@)[j]),
        decreases headers.len() - i,
    {
        if header_says_gzip(&headers[i]) {
            assert(says_gzip(raw_headers(headers@)[i as int]));
            return true;
        }
        i += 1;
    }
    false
}

} // verus!
