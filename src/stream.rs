//! Framing of a newline-delimited JSON feed. Bytes arrive in arbitrary chunks;
//! every complete line is a record, except blank lines, which the server sends
//! to keep the connection alive and which are dropped here. Turning a record
//! into a typed event is the decoder's work; a record that fails to decode is a
//! transient error, and the end of the transport ends the feed.

use vstd::prelude::*;

verus! {

/// Errors that a reader of a feed reports.
#[derive(Debug, Clone, Copy, PartialEq, Eq, Structural)]
pub enum StreamError {
    /// One record could not be decoded; reading goes on with the next one.
    TransientParseError,
    /// The transport closed or failed; the feed is over.
    ConnectionClosed,
}

pub const NEWLINE: u8 = 0x0a;

/// Bytes that JSON treats as whitespace, the line feed aside.
pub open spec fn is_pad(b: u8) -> bool {
    b == 0x20 || b == 0x09 || b == 0x0d
}

/// A line that holds no JSON value: the keep-alive signal.
pub open spec fn is_blank(line: Seq<u8>) -> bool {
    forall|i: int| 0 <= i < line.len() ==> is_pad(#[trigger] line[i])
}

pub open spec fn has_no_newline(s: Seq<u8>) -> bool {
    forall|i: int| 0 <= i < s.len() ==> #[trigger] s[i] != NEWLINE
}

/// Where the last, possibly unfinished, line of `s` begins.
pub open spec fn line_start(s: Seq<u8>) -> nat
    decreases s.len(),
{
    if s.len() == 0 {
        0
    } else if s.last() == NEWLINE {
        s.len()
    } else {
        line_start(s.drop_last())
    }
}

/// The records of a line: none for a blank line, else the line itself.
pub open spec fn line_records(line: Seq<u8>) -> Seq<Seq<u8>> {
    if is_blank(line) {
        Seq::empty()
    } else {
        seq![line]
    }
}

/// The records of the complete lines of `s`, in order, without line feeds.
pub open spec fn records(s: Seq<u8>) -> Seq<Seq<u8>>
    decreases s.len(),
{
    if s.len() == 0 {
        Seq::empty()
    } else if s.last() != NEWLINE {
        records(s.drop_last())
    } else {
        let body = s.drop_last();
        let j = line_start(body);
        if j <= body.len() {
            records(body.subrange(0, j as int)) + line_records(body.subrange(j as int, body.len() as int))
        } else {
            Seq::empty()
        }
    }
}

/// The bytes after the last line feed of `s`: a line still being received.
pub open spec fn pending_tail(s: Seq<u8>) -> Seq<u8> {
    s.subrange(line_start(s) as int, s.len() as int)
}

/// `n` empty lines.
pub open spec fn empty_lines(n: nat) -> Seq<u8> {
    Seq::new(n, |i: int| NEWLINE)
}

pub proof fn lemma_line_start_bound(s: Seq<u8>)
    ensures
        line_start(s) <= s.len(),
        line_start(s) > 0 ==> s[line_start(s) - 1] == NEWLINE,
        has_no_newline(s.subrange(line_start(s) as int, s.len() as int)),
    decreases s.len(),
{
    if s.len() > 0 && s.last() != NEWLINE {
        lemma_line_start_bound(s.drop_last());
        let j = line_start(s) as int;
        assert forall|i: int| 0 <= i < s.len() - j implies #[trigger] s.subrange(j, s.len() as int)[i]
            != NEWLINE by {
            if i < s.len() - 1 - j {
                assert(s.subrange(j, s.len() as int)[i] == s.drop_last().subrange(j, s.len() - 1)[i]);
            }
        }
    }
}

/// Bytes after the last line feed do not add to the records.
proof fn lemma_records_upto_line_start(s: Seq<u8>)
    ensures
        line_start(s) <= s.len(),
        records(s) == records(s.subrange(0, line_start(s) as int)),
    decreases s.len(),
{
    lemma_line_start_bound(s);
    if s.len() == 0 {
        assert(s.subrange(0, 0) =~= s);
    } else if s.last() == NEWLINE {
        assert(s.subrange(0, s.len() as int) =~= s);
    } else {
        lemma_records_upto_line_start(s.drop_last());
        let j = line_start(s) as int;
        assert(s.drop_last().subrange(0, j) =~= s.subrange(0, j));
    }
}

/// After a prefix that is empty or ends in a line feed, records and line
/// starts of what follows are unaffected by the prefix.
proof fn lemma_records_after_complete_lines(u: Seq<u8>, v: Seq<u8>)
    requires
        u.len() == 0 || u.last() == NEWLINE,
    ensures
        records(u + v) == records(u) + records(v),
        line_start(u + v) == u.len() + line_start(v),
    decreases v.len(),
{
    if v.len() == 0 {
        assert(u + v =~= u);
        assert(records(u) + records(v) =~= records(u));
    } else {
        let w = v.drop_last();
        assert((u + v).drop_last() =~= u + w);
        assert((u + v).last() == v.last());
        lemma_records_after_complete_lines(u, w);
        if v.last() == NEWLINE {
            lemma_line_start_bound(w);
            let k = line_start(w) as int;
            let body = u + w;
            let j = line_start(body) as int;
            assert(j == u.len() + k);
            assert(body.subrange(0, j) =~= u + w.subrange(0, k));
            assert(body.subrange(j, body.len() as int) =~= w.subrange(k, w.len() as int));
            lemma_records_after_complete_lines(u, w.subrange(0, k));
            assert(records(u + v) =~= records(u) + records(v));
        }
    }
}

/// Feeding the body in two chunks yields the records, and leaves the
/// unfinished line, that feeding it at once does: the first feed's records
/// followed by the second's are the records of the whole.
pub proof fn law_chunking_does_not_matter(pending: Seq<u8>, a: Seq<u8>, b: Seq<u8>)
    ensures
        records(pending + a) + records(pending_tail(pending + a) + b) == records(pending + a + b),
        pending_tail(pending_tail(pending + a) + b) == pending_tail(pending + a + b),
{
    let x = pending + a;
    lemma_records_upto_line_start(x);
    lemma_line_start_bound(x);
    let j = line_start(x) as int;
    let u = x.subrange(0, j);
    let t = x.subrange(j, x.len() as int);
    if j > 0 {
        assert(u.last() == x[j - 1]);
    }
    assert(x + b =~= u + (t + b));
    assert(pending + a + b =~= x + b);
    lemma_records_after_complete_lines(u, t + b);
    let tb = t + b;
    lemma_line_start_bound(tb);
    assert((x + b).subrange(line_start(x + b) as int, (x + b).len() as int) =~= tb.subrange(
        line_start(tb) as int,
        tb.len() as int,
    ));
}

/// A prefix that is empty or ends in a line feed, followed by bytes without a
/// line feed: the last line starts right after the prefix.
proof fn lemma_line_start_after(p: Seq<u8>, l: Seq<u8>)
    requires
        p.len() == 0 || p.last() == NEWLINE,
        has_no_newline(l),
    ensures
        line_start(p + l) == p.len(),
    decreases l.len(),
{
    if l.len() == 0 {
        assert(p + l =~= p);
    } else {
        assert((p + l).drop_last() =~= p + l.drop_last());
        assert((p + l).last() == l.last());
        assert(l[l.len() - 1] != NEWLINE);
        lemma_line_start_after(p, l.drop_last());
    }
}

proof fn lemma_empty_lines(n: nat)
    ensures
        records(empty_lines(n)) =~= Seq::<Seq<u8>>::empty(),
        line_start(empty_lines(n)) == n,
    decreases n,
{
    if n > 0 {
        let s = empty_lines(n);
        assert(s.drop_last() =~= empty_lines((n - 1) as nat));
        lemma_empty_lines((n - 1) as nat);
        let body = s.drop_last();
        assert(body.subrange(0, (n - 1) as int) =~= body);
        assert(body.subrange((n - 1) as int, (n - 1) as int) =~= Seq::<u8>::empty());
        assert(is_blank(Seq::<u8>::empty()));
    }
}

/// Keep-alive lines yield nothing: any number of empty lines followed by one
/// non-blank line yields exactly that line as the only record.
pub proof fn law_keep_alive_lines_are_dropped(n: nat, line: Seq<u8>)
    requires
        has_no_newline(line),
        !is_blank(line),
    ensures
        records(empty_lines(n) + line + seq![NEWLINE]) == seq![line],
{
    let b = empty_lines(n);
    let s = b + line + seq![NEWLINE];
    lemma_empty_lines(n);
    assert(s.drop_last() =~= b + line);
    assert(s.last() == NEWLINE);
    if n > 0 {
        assert(b.last() == NEWLINE);
    }
    lemma_line_start_after(b, line);
    let body = b + line;
    assert(body.subrange(0, n as int) =~= b);
    assert(body.subrange(n as int, body.len() as int) =~= line);
    assert(records(empty_lines(n)) + seq![line] =~= seq![line]);
}

/// The reader's framing state: the bytes of the line being received.
pub struct EventStreamReader {
    pending: Vec<u8>,
}

impl EventStreamReader {
    /// The bytes received after the last line feed.
    pub closed spec fn pending(&self) -> Seq<u8> {
        self.pending@
    }

    pub open spec fn wf(&self) -> bool {
        has_no_newline(self.pending())
    }

    pub fn new() -> (r: EventStreamReader)
        ensures
            r.pending() == Seq::<u8>::empty(),
            r.wf(),
    {
        EventStreamReader { pending: Vec::new() }
    }

    /// Takes the next chunk of the body and returns the records that it
    /// completes, in order; what follows the last line feed is kept.
    pub fn feed(&mut self, chunk: &[u8]) -> (out: Vec<Vec<u8>>)
        ensures
            out@.map_values(|v: Vec<u8>| v@) == records(old(self).pending() + chunk@),
            final(self).pending() == pending_tail(old(self).pending() + chunk@),
            final(self).wf(),
    {
        let mut data: Vec<u8> = Vec::new();
        data.append(&mut self.pending);
        let mut c: usize = 0;
        while c < chunk.len()
            invariant
                c <= chunk@.len(),
                data@ == old(self).pending() + chunk@.subrange(0, c as int),
            decreases chunk@.len() - c,
        {
            data.push(chunk[c]);
            c = c + 1;
            assert(data@ =~= old(self).pending() + chunk@.subrange(0, c as int));
        }
        assert(data@ =~= old(self).pending() + chunk@);
        let ghost all = data@;
        let mut out: Vec<Vec<u8>> = Vec::new();
        let mut start: usize = 0;
        let mut i: usize = 0;
        while i < data.len()
            invariant
                all == data@,
                i <= data@.len(),
                start == line_start(all.subrange(0, i as int)),
                start <= i,
                out@.map_values(|v: Vec<u8>| v@) == records(all.subrange(0, i as int)),
            decreases data@.len() - i,
        {
            let ghost pre = all.subrange(0, i as int);
            let ghost cur = all.subrange(0, i + 1);
            assert(cur.drop_last() =~= pre);
            if data[i] == NEWLINE {
                let mut line: Vec<u8> = Vec::new();
                let mut blank = true;
                let mut k: usize = start;
                while k < i
                    invariant
                        all == data@,
                        start <= k <= i,
                        i < data@.len(),
                        line@ == all.subrange(start as int, k as int),
                        blank == is_blank(line@),
                    decreases i - k,
                {
                    let b = data[k];
                    line.push(b);
                    blank = blank && (b == 0x20 || b == 0x09 || b == 0x0d);
                    k = k + 1;
                    assert(line@ =~= all.subrange(start as int, k as int));
                    assert(blank == is_blank(line@)) by {
                        if !is_pad(b) {
                            assert(line@[line@.len() - 1] == b);
                        }
                    }
                }
                proof {
                    lemma_records_upto_line_start(pre);
                    assert(pre.subrange(0, start as int) =~= all.subrange(0, start as int));
                    assert(pre.subrange(start as int, i as int) =~= line@);
                }
                let ghost before = out@.map_values(|v: Vec<u8>| v@);
                if !blank {
                    out.push(line);
                    assert(out@.map_values(|v: Vec<u8>| v@) =~= before + seq![all.subrange(start as int, i as int)]);
                }
                start = i + 1;
            }
            i = i + 1;
        }
        assert(all.subrange(0, i as int) =~= all);
        let mut rest: Vec<u8> = Vec::new();
        let mut k: usize = start;
        while k < data.len()
            invariant
                all == data@,
                start <= k <= data@.len(),
                rest@ == all.subrange(start as int, k as int),
            decreases data@.len() - k,
        {
            rest.push(data[k]);
            k = k + 1;
            assert(rest@ =~= all.subrange(start as int, k as int));
        }
        proof {
            lemma_line_start_bound(all);
        }
        self.pending = rest;
        out
    }

    /// Ends the feed: returns the unterminated last line as a final record
    /// when it is not blank, and forgets it.
    pub fn finish(&mut self) -> (last: Option<Vec<u8>>)
        ensures
            final(self).pending() == Seq::<u8>::empty(),
            match last {
                Some(v) => v@ == old(self).pending() && !is_blank(old(self).pending()),
                None => is_blank(old(self).pending()),
            },
    {
        let mut blank = true;
        let mut k: usize = 0;
        while k < self.pending.len()
            invariant
                k <= self.pending@.len(),
                blank == is_blank(self.pending@.subrange(0, k as int)),
            decreases self.pending@.len() - k,
        {
            let b = self.pending[k];
            let ghost pre = self.pending@.subrange(0, k as int);
            blank = blank && (b == 0x20 || b == 0x09 || b == 0x0d);
            k = k + 1;
            assert(blank == is_blank(self.pending@.subrange(0, k as int))) by {
                let cur = self.pending@.subrange(0, k as int);
                if !is_pad(b) {
                    assert(cur[k - 1] == b);
                } else {
                    assert forall|i: int| 0 <= i < cur.len() - 1 implies cur[i] == pre[i] by {}
                }
            }
        }
        assert(self.pending@.subrange(0, k as int) =~= self.pending@);
        let mut taken: Vec<u8> = Vec::new();
        taken.append(&mut self.pending);
        if blank {
            None
        } else {
            Some(taken)
        }
    }
}

/// How a record that the decoder turned into `decoded` is reported: `None`
/// (the record did not decode) is a transient error.
pub fn decoded_record<T>(decoded: Option<T>) -> (r: Result<T, StreamError>)
    ensures
        match decoded {
            Some(v) => r == Ok::<T, StreamError>(v),
            None => r == Err::<T, StreamError>(StreamError::TransientParseError),
        },
{
    match decoded {
        Some(v) => Ok(v),
        None => Err(StreamError::TransientParseError),
    }
}

} // verus!
