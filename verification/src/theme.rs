//! The theme preference of the dsh UI, read from dsh's `settings.yaml`
//! (the `preference:` key of the `ui-theme:` section), so that the title
//! bar and the loading page follow the theme chosen inside dsh.
use vstd::prelude::*;
use crate::text::{
    TrimClass, chars_to_string, has_prefix_at, is_whitespace, is_ws, starts_with, to_chars,
    trim_bounds, trim_class, trim_ws,
};

verus! {

/// Index of the first `'\n'` in `s`, or `s.len()` when there is none.
pub open spec fn nl_index(s: Seq<char>) -> nat
    decreases s.len(),
{
    if s.len() == 0 {
        0
    } else if s[0] == '\n' {
        0
    } else {
        1 + nl_index(s.subrange(1, s.len() as int))
    }
}

/// A line without its trailing `'\r'`, if it has one.
pub open spec fn strip_cr(l: Seq<char>) -> Seq<char> {
    if l.len() > 0 && l[l.len() - 1] == '\r' {
        l.subrange(0, l.len() - 1)
    } else {
        l
    }
}

/// The lines of `s` as `str::lines` yields them: split at `'\n'`, a `'\r'`
/// before the `'\n'` removed, no empty line after a final line ending.
pub open spec fn lines(s: Seq<char>) -> Seq<Seq<char>>
    decreases s.len(),
{
    if s.len() == 0 {
        Seq::empty()
    } else {
        let k = nl_index(s);
        if k < s.len() {
            seq![strip_cr(s.subrange(0, k as int))] + lines(s.subrange((k + 1) as int, s.len() as int))
        } else {
            seq![s]
        }
    }
}

/// The value that stands for "follow the system theme".
pub open spec fn system_pref() -> Seq<char> {
    "system"@
}

pub open spec fn theme_header() -> Seq<char> {
    "ui-theme:"@
}

pub open spec fn preference_key() -> Seq<char> {
    "preference:"@
}

/// Scans lines for the preference; `in_theme` says whether the
/// `ui-theme:` header has been seen.
pub open spec fn theme_scan(ls: Seq<Seq<char>>, in_theme: bool) -> Seq<char>
    decreases ls.len(),
{
    if ls.len() == 0 {
        system_pref()
    } else {
        let line = ls[0];
        let t = trim_ws(line);
        if t == theme_header() {
            theme_scan(ls.subrange(1, ls.len() as int), true)
        } else if in_theme && starts_with(t, preference_key()) {
            trim_class(trim_ws(t.subrange(11, t.len() as int)), TrimClass::Quote)
        } else if in_theme && t.len() > 0 && t[0] != '#' && line.len() > 0 && !is_ws(line[0]) {
            system_pref()
        } else {
            theme_scan(ls.subrange(1, ls.len() as int), in_theme)
        }
    }
}

/// The theme preference written in a `settings.yaml` text.
pub open spec fn theme_of(content: Seq<char>) -> Seq<char> {
    theme_scan(lines(content), false)
}

proof fn lemma_nl_index(s: Seq<char>, pos: int, j: int)
    requires
        0 <= pos <= j <= s.len(),
        forall|m: int| pos <= m < j ==> s[m] != '\n',
        j == s.len() || s[j] == '\n',
    ensures
        nl_index(s.subrange(pos, s.len() as int)) == j - pos,
    decreases j - pos,
{
    let t = s.subrange(pos, s.len() as int);
    if pos < j {
        lemma_nl_index(s, pos + 1, j);
        assert(t.subrange(1, t.len() as int) =~= s.subrange(pos + 1, s.len() as int));
    }
}

proof fn lemma_lines_step(s: Seq<char>, pos: int, j: int, line_end: int, next: int)
    requires
        0 <= pos < j <= s.len() || (0 <= pos == j < s.len()),
        forall|m: int| pos <= m < j ==> s[m] != '\n',
        j == s.len() || s[j] == '\n',
        line_end == if j < s.len() && j > pos && s[j - 1] == '\r' {
            j - 1
        } else {
            j
        },
        next == if j < s.len() {
            j + 1
        } else {
            j
        },
    ensures
        lines(s.subrange(pos, s.len() as int)) == seq![s.subrange(pos, line_end)] + lines(
            s.subrange(next, s.len() as int),
        ),
{
    lemma_nl_index(s, pos, j);
    let t = s.subrange(pos, s.len() as int);
    let k = j - pos;
    if j < s.len() {
        assert(t.subrange(0, k) =~= s.subrange(pos, j));
        assert(t.subrange(k + 1, t.len() as int) =~= s.subrange(next, s.len() as int));
        if j > pos && s[j - 1] == '\r' {
            assert(s.subrange(pos, j).subrange(0, k - 1) =~= s.subrange(pos, line_end));
        }
    } else {
        assert(t =~= s.subrange(pos, line_end));
        assert(s.subrange(next, s.len() as int) =~= Seq::<char>::empty());
        assert(seq![t] + lines(Seq::<char>::empty()) =~= seq![t]);
    }
}

/// Reads the theme preference out of a `settings.yaml` text: the value of
/// `preference:` in the `ui-theme:` section, with whitespace and quotes
/// trimmed; `system` when the section or the key is missing.
pub fn theme_preference(content: &str) -> (r: String)
    ensures
        r@ == theme_of(content@),
{
    let s = to_chars(content);
    let n = s.len();
    let header = to_chars("ui-theme:");
    let key = to_chars("preference:");
    proof {
        reveal_strlit("ui-theme:");
        reveal_strlit("preference:");
        assert(s@.subrange(0, n as int) =~= s@);
    }
    let mut pos: usize = 0;
    let mut in_theme = false;
    while pos < n
        invariant
            pos <= n == s@.len(),
            s@ == content@,
            header@ == theme_header(),
            key@ == preference_key(),
            key@.len() == 11,
            theme_of(content@) == theme_scan(lines(s@.subrange(pos as int, n as int)), in_theme),
        decreases n - pos,
    {
        let mut j = pos;
        while j < n && s[j] != '\n'
            invariant
                pos <= j <= n == s@.len(),
                forall|m: int| pos <= m < j ==> s@[m] != '\n',
            decreases n - j,
        {
            j = j + 1;
        }
        let line_end = if j < n && j > pos && s[j - 1] == '\r' {
            j - 1
        } else {
            j
        };
        let next = if j < n {
            j + 1
        } else {
            j
        };
        proof {
            lemma_lines_step(s@, pos as int, j as int, line_end as int, next as int);
        }
        let ghost rest = lines(s@.subrange(pos as int, n as int));
        let ghost line = s@.subrange(pos as int, line_end as int);
        assert(rest[0] == line);
        assert(rest.subrange(1, rest.len() as int) =~= lines(s@.subrange(next as int, n as int)));
        let (a, b) = trim_bounds(&s, pos, line_end, TrimClass::Whitespace);
        assert(s@.subrange(pos as int, line_end as int) == line);
        let ghost t = s@.subrange(a as int, b as int);
        let is_header = b - a == header.len() && has_prefix_at(&s, a, b, &header);
        assert(is_header == (t == theme_header())) by {
            if b - a == header@.len() && starts_with(t, header@) {
                assert(t =~= t.subrange(0, header@.len() as int));
            }
            if t == theme_header() {
                assert(t.subrange(0, t.len() as int) =~= t);
            }
        }
        if is_header {
            in_theme = true;
        } else if in_theme {
            if has_prefix_at(&s, a, b, &key) {
                let (c, d) = trim_bounds(&s, a + 11, b, TrimClass::Whitespace);
                assert(t.subrange(11, t.len() as int) =~= s@.subrange(a + 11, b as int));
                let (e, f) = trim_bounds(&s, c, d, TrimClass::Quote);
                return chars_to_string(&s, e, f);
            }
            if b > a && s[a] != '#' && line_end > pos && !is_whitespace(s[pos]) {
                proof {
                    reveal_strlit("system");
                }
                return String::from_str("system");
            }
        }
        pos = next;
    }
    proof {
        reveal_strlit("system");
        assert(s@.subrange(pos as int, n as int) =~= Seq::<char>::empty());
    }
    String::from_str("system")
}

/// The preference from the text of `settings.yaml`; `system` when the file
/// could not be read.
pub fn read_theme_preference(content: Option<&str>) -> (r: String)
    ensures
        r@ == match content {
            Some(c) => theme_of(c@),
            None => system_pref(),
        },
{
    match content {
        Some(c) => theme_preference(c),
        None => {
            proof {
                reveal_strlit("system");
            }
            String::from_str("system")
        },
    }
}

/// Whether the poller must announce `pref`: it differs from the value last announced.
pub fn theme_changed(last: &Option<String>, pref: &str) -> (r: bool)
    ensures
        r == match last {
            Some(l) => l@ != pref@,
            None => true,
        },
{
    match last {
        Some(l) => {
            let p = pref.to_owned();
            !(*l == p)
        },
        None => true,
    }
}

/// Without a `ui-theme:` line, the preference is `system`.
pub proof fn law_no_section_means_system(ls: Seq<Seq<char>>)
    requires
        forall|i: int| 0 <= i < ls.len() ==> trim_ws(#[trigger] ls[i]) != theme_header(),
    ensures
        theme_scan(ls, false) == system_pref(),
    decreases ls.len(),
{
    if ls.len() > 0 {
        let rest = ls.subrange(1, ls.len() as int);
        assert forall|i: int| 0 <= i < rest.len() implies trim_ws(#[trigger] rest[i])
            != theme_header() by {
            assert(rest[i] == ls[i + 1]);
        }
        law_no_section_means_system(rest);
    }
}

/// Inside the `ui-theme:` section, an indented line that is not the
/// preference does not end the section: the result is as if it were not there.
/// A non-empty, non-comment line that starts without whitespace (a new
/// top-level key) ends it with `system`.
pub proof fn law_section_ends_only_at_top_level_key(line: Seq<char>, ls: Seq<Seq<char>>)
    requires
        !starts_with(trim_ws(line), preference_key()),
        trim_ws(line) != theme_header(),
    ensures
        (line.len() > 0 && is_ws(line[0])) ==> theme_scan(seq![line] + ls, true) == theme_scan(ls, true),
        (line.len() > 0 && !is_ws(line[0]) && trim_ws(line).len() > 0 && trim_ws(line)[0] != '#')
            ==> theme_scan(seq![line] + ls, true) == system_pref(),
{
    let all = seq![line] + ls;
    assert(all[0] == line);
    assert(all.subrange(1, all.len() as int) =~= ls);
}

/// The `ui-theme:` header opens the section.
pub proof fn law_header_opens_section(line: Seq<char>, ls: Seq<Seq<char>>, in_theme: bool)
    requires
        trim_ws(line) == theme_header(),
    ensures
        theme_scan(seq![line] + ls, in_theme) == theme_scan(ls, true),
{
    let all = seq![line] + ls;
    assert(all[0] == line);
    assert(all.subrange(1, all.len() as int) =~= ls);
}

} // verus!
