//! Character-level helpers shared by the parsers and message builders:
//! Unicode whitespace, trimming, prefix tests, line splitting and decimal
//! rendering of integers.
use vstd::prelude::*;

verus! {

/// Appends one character to a `String` (std `String::push`).
/// Trusted: the string afterwards holds its old characters followed by `c`.
#[verifier::external_body]
pub(crate) fn push_char(s: &mut String, c: char)
    ensures
        final(s)@ == old(s)@.push(c),
{
    s.push(c);
}

/// The characters with the Unicode `White_Space` property, which is what
/// `char::is_whitespace` tests.
pub open spec fn is_ws(c: char) -> bool {
    let u = c as u32;
    ||| 0x09 <= u <= 0x0D
    ||| u == 0x20
    ||| u == 0x85
    ||| u == 0xA0
    ||| u == 0x1680
    ||| 0x2000 <= u <= 0x200A
    ||| u == 0x2028
    ||| u == 0x2029
    ||| u == 0x202F
    ||| u == 0x205F
    ||| u == 0x3000
}

pub fn is_whitespace(c: char) -> (r: bool)
    ensures
        r == is_ws(c),
{
    let u = c as u32;
    (0x09 <= u && u <= 0x0D) || u == 0x20 || u == 0x85 || u == 0xA0 || u == 0x1680 || (0x2000
        <= u && u <= 0x200A) || u == 0x2028 || u == 0x2029 || u == 0x202F || u == 0x205F || u
        == 0x3000
}

/// Which characters a trim removes.
#[derive(Clone, Copy)]
pub enum TrimClass {
    Whitespace,
    Quote,
}

pub open spec fn in_class(cls: TrimClass, c: char) -> bool {
    match cls {
        TrimClass::Whitespace => is_ws(c),
        TrimClass::Quote => c == '"',
    }
}

fn class_has(cls: TrimClass, c: char) -> (r: bool)
    ensures
        r == in_class(cls, c),
{
    match cls {
        TrimClass::Whitespace => is_whitespace(c),
        TrimClass::Quote => c == '"',
    }
}

/// `s` without its leading characters of the class.
pub open spec fn trim_start_class(s: Seq<char>, cls: TrimClass) -> Seq<char>
    decreases s.len(),
{
    if s.len() > 0 && in_class(cls, s[0]) {
        trim_start_class(s.subrange(1, s.len() as int), cls)
    } else {
        s
    }
}

/// `s` without its trailing characters of the class.
pub open spec fn trim_end_class(s: Seq<char>, cls: TrimClass) -> Seq<char>
    decreases s.len(),
{
    if s.len() > 0 && in_class(cls, s[s.len() - 1]) {
        trim_end_class(s.subrange(0, s.len() - 1), cls)
    } else {
        s
    }
}

/// Both ends trimmed, as `str::trim` (whitespace) or `str::trim_matches('"')` do.
pub open spec fn trim_class(s: Seq<char>, cls: TrimClass) -> Seq<char> {
    trim_end_class(trim_start_class(s, cls), cls)
}

pub open spec fn trim_ws(s: Seq<char>) -> Seq<char> {
    trim_class(s, TrimClass::Whitespace)
}

pub open spec fn starts_with(s: Seq<char>, p: Seq<char>) -> bool {
    p.len() <= s.len() && s.subrange(0, p.len() as int) == p
}

/// Finds the bounds of the trimmed part of `s[lo..hi]`.
pub fn trim_bounds(s: &Vec<char>, lo: usize, hi: usize, cls: TrimClass) -> (r: (usize, usize))
    requires
        lo <= hi <= s@.len(),
    ensures
        lo <= r.0 <= r.1 <= hi,
        s@.subrange(r.0 as int, r.1 as int) == trim_class(s@.subrange(lo as int, hi as int), cls),
{
    let mut i = lo;
    while i < hi && class_has(cls, s[i])
        invariant
            lo <= i <= hi <= s@.len(),
            trim_start_class(s@.subrange(lo as int, hi as int), cls) == trim_start_class(
                s@.subrange(i as int, hi as int),
                cls,
            ),
        decreases hi - i,
    {
        assert(s@.subrange(i as int, hi as int).subrange(1, (hi - i) as int) == s@.subrange(
            i + 1,
            hi as int,
        ));
        i = i + 1;
    }
    assert(trim_start_class(s@.subrange(i as int, hi as int), cls) == s@.subrange(
        i as int,
        hi as int,
    ));
    let mut j = hi;
    while j > i && class_has(cls, s[j - 1])
        invariant
            lo <= i <= j <= hi <= s@.len(),
            trim_class(s@.subrange(lo as int, hi as int), cls) == trim_end_class(
                s@.subrange(i as int, j as int),
                cls,
            ),
        decreases j - i,
    {
        assert(s@.subrange(i as int, j as int).subrange(0, (j - i - 1) as int) == s@.subrange(
            i as int,
            j - 1,
        ));
        j = j - 1;
    }
    (i, j)
}

/// Whether `s[lo..hi]` begins with `p`.
pub fn has_prefix_at(s: &Vec<char>, lo: usize, hi: usize, p: &Vec<char>) -> (r: bool)
    requires
        lo <= hi <= s@.len(),
    ensures
        r == starts_with(s@.subrange(lo as int, hi as int), p@),
{
    if p.len() > hi - lo {
        return false;
    }
    let mut k: usize = 0;
    while k < p.len()
        invariant
            p@.len() <= hi - lo,
            lo <= hi <= s@.len(),
            k <= p@.len(),
            forall|m: int| 0 <= m < k ==> s@[lo + m] == p@[m],
        decreases p.len() - k,
    {
        if s[lo + k] != p[k] {
            assert(s@.subrange(lo as int, hi as int).subrange(0, p@.len() as int)[k as int]
                != p@[k as int]);
            return false;
        }
        k = k + 1;
    }
    assert(s@.subrange(lo as int, hi as int).subrange(0, p@.len() as int) =~= p@);
    true
}

/// The characters of a string slice.
pub fn to_chars(s: &str) -> (r: Vec<char>)
    ensures
        r@ == s@,
{
    let mut r: Vec<char> = Vec::new();
    for c in it: s.chars()
        invariant
            r@ == it.seq().take(it.index() as int),
            it.seq() == s@,
    {
        r.push(c);
    }
    r
}

/// A string made of `v[lo..hi]`.
pub fn chars_to_string(v: &Vec<char>, lo: usize, hi: usize) -> (s: String)
    requires
        lo <= hi <= v@.len(),
    ensures
        s@ == v@.subrange(lo as int, hi as int),
{
    let mut s = String::new();
    let mut i = lo;
    while i < hi
        invariant
            lo <= i <= hi <= v@.len(),
            s@ == v@.subrange(lo as int, i as int),
        decreases hi - i,
    {
        push_char(&mut s, v[i]);
        i = i + 1;
        assert(v@.subrange(lo as int, i as int) == v@.subrange(lo as int, i - 1).push(
            v@[i - 1],
        ));
    }
    s
}

/// The character of decimal digit `d`.
pub open spec fn digit_char(d: nat) -> char {
    if d == 0 {
        '0'
    } else if d == 1 {
        '1'
    } else if d == 2 {
        '2'
    } else if d == 3 {
        '3'
    } else if d == 4 {
        '4'
    } else if d == 5 {
        '5'
    } else if d == 6 {
        '6'
    } else if d == 7 {
        '7'
    } else if d == 8 {
        '8'
    } else {
        '9'
    }
}

/// Decimal rendering of a natural number, without leading zeros.
pub open spec fn dec(n: nat) -> Seq<char>
    decreases n,
{
    if n < 10 {
        seq![digit_char(n)]
    } else {
        dec(n / 10).push(digit_char(n % 10))
    }
}

/// Decimal rendering of a signed integer, as `Display` writes it.
pub open spec fn dec_int(n: int) -> Seq<char> {
    if n < 0 {
        seq!['-'] + dec((-n) as nat)
    } else {
        dec(n as nat)
    }
}

/// Decimal rendering padded with zeros to at least `width` digits (`{:0width}`).
pub open spec fn dec_padded(n: nat, width: nat) -> Seq<char> {
    let d = dec(n);
    if d.len() >= width {
        d
    } else {
        Seq::new((width - d.len()) as nat, |i: int| '0') + d
    }
}

fn digit(d: u64) -> (c: char)
    requires
        d < 10,
    ensures
        c == digit_char(d as nat),
{
    if d == 0 {
        '0'
    } else if d == 1 {
        '1'
    } else if d == 2 {
        '2'
    } else if d == 3 {
        '3'
    } else if d == 4 {
        '4'
    } else if d == 5 {
        '5'
    } else if d == 6 {
        '6'
    } else if d == 7 {
        '7'
    } else if d == 8 {
        '8'
    } else {
        '9'
    }
}

/// Appends the decimal rendering of `n`.
pub fn push_dec(s: &mut String, n: u64)
    ensures
        final(s)@ == old(s)@ + dec(n as nat),
    decreases n,
{
    if n < 10 {
        push_char(s, digit(n));
        assert(old(s)@.push(digit_char(n as nat)) == old(s)@ + dec(n as nat));
    } else {
        push_dec(s, n / 10);
        push_char(s, digit(n % 10));
        assert(old(s)@ + dec(n as nat) == old(s)@ + dec((n / 10) as nat) + seq![digit_char((n % 10) as nat)]);
    }
}

pub proof fn lemma_dec_len_pos(n: nat)
    ensures
        dec(n).len() >= 1,
        n < 10 ==> dec(n).len() == 1,
        10 <= n < 100 ==> dec(n).len() == 2,
        100 <= n < 1000 ==> dec(n).len() == 3,
    decreases n,
{
    if n >= 10 {
        lemma_dec_len_pos(n / 10);
    }
}

/// Appends `n` padded with zeros to `width` digits (`width` at most 3).
pub fn push_dec_padded(s: &mut String, n: u64, width: u64)
    requires
        width <= 3,
        n < 1000,
    ensures
        final(s)@ == old(s)@ + dec_padded(n as nat, width as nat),
{
    proof {
        lemma_dec_len_pos(n as nat);
    }
    let len: u64 = if n < 10 {
        1
    } else if n < 100 {
        2
    } else {
        3
    };
    let mut k = len;
    let ghost start = s@;
    while k < width
        invariant
            len <= k <= 3,
            width <= 3,
            len == dec(n as nat).len(),
            k <= width || k == len,
            s@ == start + Seq::new((k - len) as nat, |i: int| '0'),
        decreases width - k,
    {
        push_char(s, '0');
        k = k + 1;
        assert(s@ =~= start + Seq::new((k - len) as nat, |i: int| '0'));
    }
    push_dec(s, n);
    if len >= width {
        assert(k == len);
        assert(s@ =~= start + dec(n as nat));
    } else {
        assert(k == width);
        assert(s@ =~= start + (Seq::new((width - len) as nat, |i: int| '0') + dec(n as nat)));
    }
}

/// Appends the decimal rendering of a signed integer.
pub fn push_dec_i32(s: &mut String, n: i32)
    ensures
        final(s)@ == old(s)@ + dec_int(n as int),
{
    if n < 0 {
        push_char(s, '-');
        let m: u64 = if n == i32::MIN {
            2147483648u64
        } else {
            (-n) as u64
        };
        push_dec(s, m);
        assert(old(s)@ + dec_int(n as int) == old(s)@.push('-') + dec(m as nat));
    } else {
        push_dec(s, n as u64);
    }
}

} // verus!
