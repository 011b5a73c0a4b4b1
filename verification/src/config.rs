use vstd::prelude::*;
use vstd::string::*;
use crate::text::push_char;

verus! {

/// How many colons a text holds.
pub open spec fn colons(s: Seq<char>) -> nat
    decreases s.len(),
{
    if s.len() == 0 {
        0
    } else if s.last() == ':' {
        colons(s.drop_last()) + 1
    } else {
        colons(s.drop_last())
    }
}

/// Whether `raw` is `name`, one colon and `value`, with no colon in either.
pub open spec fn splits_into(raw: Seq<char>, name: Seq<char>, value: Seq<char>) -> bool {
    &&& raw == name + seq![':'] + value
    &&& colons(name) == 0
    &&& colons(value) == 0
}

/// The startup configuration of the proxy.
pub struct AppState {
    /// The base address of the upstream.
    pub target_url: String,
    /// A header put on every outbound request, if any.
    pub additional_header: Option<(String, String)>,
    /// How long an outbound call may take.
    pub request_timeout_minutes: u64,
    /// Where the log lines go.
    pub log_file: String,
}

/// Reads the additional header from its configured form, `name:value`. A text
/// with no colon, or with more than one, configures no header.
pub fn parse_additional_header(raw: &str) -> (r: Option<(String, String)>)
    ensures
        r is Some <==> colons(raw@) == 1,
        r matches Some(pair) ==> splits_into(raw@, pair.0@, pair.1@),
{
    let mut name = String::new();
    let mut value = String::new();
    let mut seen: bool = false;
    let mut many: bool = false;
    for c in it: raw.chars()
        invariant
            it.seq() == raw@,
            seen == (colons(raw@.take(it.index() as int)) >= 1),
            many == (colons(raw@.take(it.index() as int)) >= 2),
            !seen ==> name@ == raw@.take(it.index() as int) && value@.len() == 0,
            seen && !many ==> splits_into(raw@.take(it.index() as int), name@, value@),
            colons(name@) == 0,
    {
        let ghost k = it.index() as int;
        proof {
            assert(raw@.take(k + 1).drop_last() == raw@.take(k));
            assert(raw@.take(k + 1).last() == c);
        }
        if c == ':' {
            if seen {
                many = true;
            } else {
                seen = true;
                proof {
                    assert(raw@.take(k + 1) =~= name@ + seq![':'] + value@);
                }
            }
        } else if !seen {
            proof {
                assert(name@.push(c).drop_last() == name@);
            }
            push_char(&mut name, c);
        } else if !many {
            proof {
                assert(value@.push(c).drop_last() == value@);
                assert(raw@.take(k + 1) =~= name@ + seq![':'] + value@.push(c));
            }
            push_char(&mut value, c);
        }
    }
    proof {
        assert(raw@.take(raw@.len() as int) == raw@);
    }
    if seen && !many {
        Some((name, value))
    } else {
        None
    }
}

} // verus!
