//! Reading the child's URL line, the port in a URL, and the loopback
//! health probe (the request sent and the answer accepted).
use vstd::prelude::*;
use crate::text::{dec, push_dec};

verus! {

/// What capture group `group` of the first match of `pattern` in `text`
/// holds, as the `regex` crate computes it; `None` when the pattern does not
/// compile, nothing matches or the group took no part in the match.
pub uninterp spec fn regex_group(pattern: Seq<char>, text: Seq<char>, group: nat) -> Option<
    Seq<char>,
>;

pub open spec fn opt_text(o: Option<String>) -> Option<Seq<char>> {
    match o {
        Some(s) => Some(s@),
        None => None,
    }
}

/// Compiles `pattern` with `regex::Regex::new` and returns capture group
/// `group` of `Regex::captures` on `text`. Trusted: the result is
/// `regex_group` of the arguments. Nothing more is stated of it.
#[verifier::external_body]
fn regex_capture(pattern: &str, text: &str, group: usize) -> (r: Option<String>)
    ensures
        opt_text(r) == regex_group(pattern@, text@, group as nat),
{
    match regex::Regex::new(pattern) {
        Ok(re) => match re.captures(text) {
            Some(caps) => match caps.get(group) {
                Some(m) => Some(m.as_str().to_string()),
                None => None,
            },
            None => None,
        },
        Err(_) => None,
    }
}

/// The line `dsh web` prints once it listens: `dsh web: http://127.0.0.1:<port>`,
/// possibly followed by a LAN address, which is ignored.
pub open spec fn url_line_pattern() -> Seq<char> {
    "^dsh web: (http://127\\.0\\.0\\.1:\\d+)"@
}

/// The loopback URL announced by a line of the child's stdout, if any.
pub fn parse_url_line(line: &str) -> (r: Option<String>)
    ensures
        opt_text(r) == regex_group(url_line_pattern(), line@, 1),
{
    regex_capture("^dsh web: (http://127\\.0\\.0\\.1:\\d+)", line, 1)
}

/// What follows the last `':'` of `s` (all of `s` when it has none), as
/// `s.rsplit(':').next()` gives it.
pub open spec fn after_last_colon(s: Seq<char>) -> Seq<char>
    decreases s.len(),
{
    if s.len() == 0 {
        s
    } else if s[s.len() - 1] == ':' {
        Seq::empty()
    } else {
        after_last_colon(s.subrange(0, s.len() - 1)).push(s[s.len() - 1])
    }
}

pub open spec fn is_digit(c: char) -> bool {
    '0' <= c <= '9'
}

/// The number written by a string of ASCII digits.
pub open spec fn digits_value(d: Seq<char>) -> nat
    decreases d.len(),
{
    if d.len() == 0 {
        0
    } else {
        digits_value(d.subrange(0, d.len() - 1)) * 10 + ((d[d.len() - 1] as nat) - ('0' as nat)) as nat
    }
}

/// `s` without one leading `'+'`.
pub open spec fn unsigned_digits(s: Seq<char>) -> Seq<char> {
    if s.len() > 0 && s[0] == '+' {
        s.subrange(1, s.len() as int)
    } else {
        s
    }
}

/// `u16::from_str`: an optional `'+'`, then one or more ASCII digits whose
/// value fits in 16 bits.
pub open spec fn parse_u16(s: Seq<char>) -> Option<u16> {
    if unsigned_digits(s).len() > 0 && all_digits(unsigned_digits(s)) && digits_value(
        unsigned_digits(s),
    ) <= 65535 {
        Some(digits_value(unsigned_digits(s)) as u16)
    } else {
        None
    }
}

pub open spec fn all_digits(d: Seq<char>) -> bool {
    forall|i: int| 0 <= i < d.len() ==> is_digit(#[trigger] d[i])
}

/// The port of a URL: the number after its last `':'`.
pub open spec fn url_port(url: Seq<char>) -> Option<u16> {
    parse_u16(after_last_colon(url))
}

/// Parses a port number the way `str::parse::<u16>` does.
pub fn parse_port(s: &str) -> (r: Option<u16>)
    ensures
        r == parse_u16(s@),
{
    let v = crate::text::to_chars(s);
    let n = v.len();
    let start: usize = if n > 0 && v[0] == '+' {
        1
    } else {
        0
    };
    let ghost d = unsigned_digits(s@);
    assert(d =~= v@.subrange(start as int, n as int));
    if start == n {
        return None;
    }
    let mut i = start;
    let mut value: u32 = 0;
    while i < n
        invariant
            start <= i <= n == v@.len(),
            d == v@.subrange(start as int, n as int),
            d == unsigned_digits(s@),
            forall|m: int| start <= m < i ==> is_digit(#[trigger] v@[m]),
            value == if digits_value(v@.subrange(start as int, i as int)) < 65536 {
                digits_value(v@.subrange(start as int, i as int))
            } else {
                65536
            },
        decreases n - i,
    {
        let c = v[i];
        if !('0' <= c && c <= '9') {
            assert(!is_digit(d[i - start]));
            assert(!all_digits(d));
            assert(parse_u16(s@) is None);
            return None;
        }
        let digit = (c as u32) - ('0' as u32);
        let ghost before = v@.subrange(start as int, i as int);
        assert(v@.subrange(start as int, i + 1).subrange(0, i - start) =~= before);
        value = if value * 10 + digit < 65536 {
            value * 10 + digit
        } else {
            65536
        };
        i = i + 1;
    }
    assert(v@.subrange(start as int, n as int) == d);
    if value <= 65535 {
        Some(value as u16)
    } else {
        None
    }
}

proof fn lemma_after_last_colon(s: Seq<char>, k: int)
    requires
        0 <= k <= s.len(),
        forall|m: int| k <= m < s.len() ==> s[m] != ':',
    ensures
        after_last_colon(s) == after_last_colon(s.subrange(0, k)) + s.subrange(k, s.len() as int),
    decreases s.len() - k,
{
    if k < s.len() {
        let p = s.subrange(0, s.len() - 1);
        lemma_after_last_colon(p, k);
        assert(p.subrange(0, k) =~= s.subrange(0, k));
        assert(p.subrange(k, p.len() as int).push(s[s.len() - 1]) =~= s.subrange(k, s.len() as int));
        assert(after_last_colon(s) == after_last_colon(p).push(s[s.len() - 1]));
        assert(after_last_colon(p).push(s[s.len() - 1]) =~= after_last_colon(s.subrange(0, k))
            + s.subrange(k, s.len() as int));
    } else {
        assert(s.subrange(0, k) =~= s);
        assert(s + s.subrange(k, s.len() as int) =~= s);
    }
}

/// What follows the last `':'` of `s` (`s.rsplit(':').next()`).
pub fn last_colon_field(s: &str) -> (r: String)
    ensures
        r@ == after_last_colon(s@),
{
    let v = crate::text::to_chars(s);
    let n = v.len();
    let mut k = n;
    while k > 0 && v[k - 1] != ':'
        invariant
            k <= n == v@.len(),
            forall|m: int| k <= m < n ==> v@[m] != ':',
        decreases k,
    {
        k = k - 1;
    }
    proof {
        lemma_after_last_colon(v@, k as int);
        if k > 0 {
            let p = v@.subrange(0, k as int);
            assert(p[p.len() - 1] == ':');
            assert(after_last_colon(p) == Seq::<char>::empty());
        } else {
            assert(after_last_colon(v@.subrange(0, 0)) == Seq::<char>::empty());
        }
        assert(after_last_colon(s@) =~= v@.subrange(k as int, n as int));
    }
    crate::text::chars_to_string(&v, k, n)
}

/// The port of a URL (`url.rsplit(':').next()` parsed as a port).
pub fn port_of_url(url: &str) -> (r: Option<u16>)
    ensures
        r == url_port(url@),
{
    let tail = last_colon_field(url);
    parse_port(tail.as_str())
}

/// The HTTP request of the health probe.
pub open spec fn probe_request_text(port: u16) -> Seq<char> {
    "GET / HTTP/1.0\r\nHost: 127.0.0.1:"@ + dec(port as nat) + "\r\n\r\n"@
}

/// Builds the `GET /` request sent to the child's port.
pub fn probe_request(port: u16) -> (r: String)
    ensures
        r@ == probe_request_text(port),
{
    let mut r = String::from_str("GET / HTTP/1.0\r\nHost: 127.0.0.1:");
    push_dec(&mut r, port as u64);
    r.append("\r\n\r\n");
    r
}

/// Whether the first bytes of an answer read `HTTP/1.0 2`, `HTTP/1.1 2`,
/// `HTTP/1.0 3` or `HTTP/1.1 3`: a 2xx or 3xx status.
pub open spec fn is_ok_status_head(b: Seq<u8>) -> bool {
    &&& b.len() >= 10
    &&& b[0] == 72u8 && b[1] == 84u8 && b[2] == 84u8 && b[3] == 80u8 && b[4] == 47u8
    &&& b[5] == 49u8 && b[6] == 46u8
    &&& (b[7] == 48u8 || b[7] == 49u8)
    &&& b[8] == 32u8
    &&& (b[9] == 50u8 || b[9] == 51u8)
}

/// Judges the beginning of the probe's answer.
pub fn answer_is_ok(head: &[u8]) -> (r: bool)
    ensures
        r == is_ok_status_head(head@),
{
    if head.len() < 10 {
        return false;
    }
    head[0] == 72 && head[1] == 84 && head[2] == 84 && head[3] == 80 && head[4] == 47 && head[5]
        == 49 && head[6] == 46 && (head[7] == 48 || head[7] == 49) && head[8] == 32 && (head[9]
        == 50 || head[9] == 51)
}

} // verus!
