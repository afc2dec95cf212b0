//! The bounded log buffer that merges the client's own lines with the
//! child's stdout and stderr, each line stamped with the wall-clock time.
use vstd::prelude::*;
use std::collections::VecDeque;
use crate::text::{dec_padded, push_char, push_dec_padded};

verus! {

/// The last `n` elements of `s` (all of them when there are fewer).
pub open spec fn keep_last<T>(s: Seq<T>, n: nat) -> Seq<T> {
    if s.len() <= n {
        s
    } else {
        s.subrange(s.len() - n, s.len() as int)
    }
}

/// `HH:MM:SS.mmm` of the time of day (UTC) `secs` seconds and `millis`
/// milliseconds after the Unix epoch.
pub open spec fn clock_text(secs: nat, millis: nat) -> Seq<char> {
    dec_padded((secs / 3600) % 24, 2) + seq![':'] + dec_padded((secs / 60) % 60, 2) + seq![':']
        + dec_padded(secs % 60, 2) + seq!['.'] + dec_padded(millis, 3)
}

/// Whether `t` is the clock text of some instant.
pub open spec fn is_clock_text(t: Seq<char>) -> bool {
    exists|secs: nat, millis: nat| millis < 1000 && t == clock_text(secs, millis)
}

/// Reads the system clock (std `SystemTime::now`) as whole seconds and
/// milliseconds since the Unix epoch; a clock before the epoch reads as zero.
/// Trusted: the millisecond part is below 1000. Nothing else is stated: the
/// result is the time of the call.
#[verifier::external_body]
fn unix_time_now() -> (r: (u64, u32))
    ensures
        r.1 < 1000,
{
    let d = std::time::SystemTime::now().duration_since(std::time::UNIX_EPOCH).unwrap_or_default();
    (d.as_secs(), d.subsec_millis())
}

/// Renders a time of day as `HH:MM:SS.mmm`.
pub fn format_clock(secs: u64, millis: u32) -> (r: String)
    requires
        millis < 1000,
    ensures
        r@ == clock_text(secs as nat, millis as nat),
{
    let mut r = String::new();
    push_dec_padded(&mut r, (secs / 3600) % 24, 2);
    push_char(&mut r, ':');
    push_dec_padded(&mut r, (secs / 60) % 60, 2);
    push_char(&mut r, ':');
    push_dec_padded(&mut r, secs % 60, 2);
    push_char(&mut r, '.');
    push_dec_padded(&mut r, millis as u64, 3);
    assert(r@ =~= clock_text(secs as nat, millis as nat));
    r
}

/// The current time of day as `HH:MM:SS.mmm`.
pub fn timestamp() -> (r: String)
    ensures
        is_clock_text(r@),
{
    let (secs, millis) = unix_time_now();
    let r = format_clock(secs, millis);
    assert(r@ == clock_text(secs as nat, millis as nat));
    r
}

/// A log buffer that keeps the most recent `capacity` lines.
pub struct LogBuffer {
    lines: VecDeque<String>,
    capacity: usize,
}

pub open spec fn lines_view(v: Seq<String>) -> Seq<Seq<char>> {
    v.map_values(|l: String| l@)
}

impl View for LogBuffer {
    type V = Seq<Seq<char>>;

    closed spec fn view(&self) -> Seq<Seq<char>> {
        lines_view(self.lines@)
    }
}

impl LogBuffer {
    pub closed spec fn cap(&self) -> nat {
        self.capacity as nat
    }

    /// An empty buffer that keeps at most `capacity` lines.
    pub fn new(capacity: usize) -> (b: Self)
        ensures
            b@ == Seq::<Seq<char>>::empty(),
            b.cap() == capacity,
    {
        let b = LogBuffer { lines: VecDeque::new(), capacity };
        assert(b@ =~= Seq::<Seq<char>>::empty());
        b
    }

    pub fn capacity(&self) -> (n: usize)
        ensures
            n == self.cap(),
    {
        self.capacity
    }

    pub fn len(&self) -> (n: usize)
        ensures
            n == self@.len(),
    {
        self.lines.len()
    }

    /// Appends a line, dropping the oldest lines beyond the capacity.
    pub fn push(&mut self, line: String)
        ensures
            final(self)@ == keep_last(old(self)@.push(line@), old(self).cap()),
            final(self).cap() == old(self).cap(),
            final(self)@.len() <= final(self).cap(),
    {
        let ghost all = old(self)@.push(line@);
        self.lines.push_back(line);
        assert(lines_view(self.lines@) =~= all);
        let ghost mut dropped: int = 0;
        while self.lines.len() > self.capacity
            invariant
                0 <= dropped <= all.len(),
                self.lines@.len() == all.len() - dropped,
                lines_view(self.lines@) == all.subrange(dropped, all.len() as int),
                self.capacity == old(self).capacity,
                dropped > 0 ==> self.lines@.len() >= self.capacity,
            decreases self.lines@.len(),
        {
            let ghost before = self.lines@;
            let popped = self.lines.pop_front();
            proof {
                assert(popped is Some);
                assert(self.lines@ == before.subrange(1, before.len() as int));
                assert forall|k: int| 0 <= k < self.lines@.len() implies #[trigger] lines_view(
                    self.lines@,
                )[k] == all.subrange(dropped + 1, all.len() as int)[k] by {
                    assert(lines_view(self.lines@)[k] == self.lines@[k]@);
                    assert(self.lines@[k] == before[k + 1]);
                    assert(lines_view(before)[k + 1] == before[k + 1]@);
                }
                dropped = dropped + 1;
                assert(lines_view(self.lines@) =~= all.subrange(dropped, all.len() as int));
            }
        }
        assert(lines_view(self.lines@) =~= keep_last(all, self.capacity as nat));
    }

    /// Appends `line` stamped with the current time (`HH:MM:SS.mmm line`).
    pub fn log(&mut self, line: &str)
        ensures
            final(self).cap() == old(self).cap(),
            exists|ts: Seq<char>|
                is_clock_text(ts) && final(self)@ == keep_last(
                    old(self)@.push(ts + seq![' '] + line@),
                    old(self).cap(),
                ),
    {
        let ts = timestamp();
        let mut l = ts.clone();
        push_char(&mut l, ' ');
        l.append(line);
        assert(l@ =~= ts@ + seq![' '] + line@);
        self.push(l);
        assert(is_clock_text(ts@) && self@ == keep_last(
            old(self)@.push(ts@ + seq![' '] + line@),
            old(self).cap(),
        ));
    }

    /// The last `n` lines, oldest first (all of them when there are fewer).
    pub fn tail(&self, n: usize) -> (r: Vec<String>)
        ensures
            lines_view(r@) == keep_last(self@, n as nat),
    {
        let len = self.lines.len();
        let start = if n < len {
            len - n
        } else {
            0
        };
        let mut r: Vec<String> = Vec::new();
        let mut i = start;
        while i < len
            invariant
                start <= i <= len,
                len == self.lines@.len(),
                lines_view(r@) =~= lines_view(self.lines@).subrange(start as int, i as int),
            decreases len - i,
        {
            let l = self.lines[i].clone();
            assert(l == self.lines@[i as int]);
            let ghost r0 = r@;
            r.push(l);
            assert(r@ == r0.push(l));
            assert(lines_view(r@) =~= lines_view(r0).push(l@));
            assert(lines_view(self.lines@)[i as int] == l@);
            i = i + 1;
            assert(lines_view(r@) =~= lines_view(self.lines@).subrange(start as int, i as int));
        }
        assert(lines_view(r@) =~= keep_last(self@, n as nat));
        r
    }
}

/// The buffer only ever holds its capacity's worth of lines: all of the
/// history while it is short, exactly `n` lines after that.
pub proof fn law_bounded<T>(s: Seq<T>, n: nat)
    ensures
        keep_last(s, n).len() == if s.len() <= n {
            s.len()
        } else {
            n
        },
{
}

/// Pushing onto a trimmed buffer is the same as trimming the whole history:
/// the buffer always holds the most recent lines logged, in order.
pub proof fn law_push_keeps_recent<T>(s: Seq<T>, x: T, n: nat)
    ensures
        keep_last(keep_last(s, n).push(x), n) == keep_last(s.push(x), n),
{
    assert(keep_last(keep_last(s, n).push(x), n) =~= keep_last(s.push(x), n));
}

/// The result of pushing each of `ls` in turn.
pub open spec fn push_each<T>(s: Seq<T>, ls: Seq<T>, n: nat) -> Seq<T>
    decreases ls.len(),
{
    if ls.len() == 0 {
        s
    } else {
        push_each(keep_last(s.push(ls[0]), n), ls.subrange(1, ls.len() as int), n)
    }
}

/// However many lines are logged, the buffer holds the last `n` lines of
/// the whole history.
pub proof fn law_buffer_is_recent_history<T>(history: Seq<T>, ls: Seq<T>, n: nat)
    ensures
        push_each(keep_last(history, n), ls, n) == keep_last(history + ls, n),
    decreases ls.len(),
{
    if ls.len() > 0 {
        law_push_keeps_recent(history, ls[0], n);
        let rest = ls.subrange(1, ls.len() as int);
        law_buffer_is_recent_history(history.push(ls[0]), rest, n);
        assert(history.push(ls[0]) + rest =~= history + ls);
    } else {
        assert(history + ls =~= history);
    }
}

/// Asking for at least as many lines as there are gives all of them; asking
/// for one gives the newest.
pub proof fn law_tail_counts<T>(s: Seq<T>, n: nat)
    ensures
        n >= s.len() ==> keep_last(s, n) == s,
        (n == 1 && s.len() > 0) ==> keep_last(s, n) == seq![s.last()],
{
    if n == 1 && s.len() > 0 {
        assert(keep_last(s, n) =~= seq![s.last()]);
    }
}

} // verus!
