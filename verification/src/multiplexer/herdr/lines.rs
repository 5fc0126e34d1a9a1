//! Splitting an event stream into lines.
//!
//! Bytes arrive in chunks of any size. What has been read of an unfinished line is
//! held by the reader, so giving up on a read loses nothing. No line is longer than
//! [`MAX_EVENT_LINE_BYTES`], whether its end arrives or not.

use vstd::prelude::*;
use vstd::string::*;
use vstd::utf8::{decode_utf8, decode_utf8_encode_utf8, encode_utf8, valid_utf8};

use crate::seqs::{first_index, lemma_first_index, lemma_first_index_meaning};
use crate::text::{utf8_error_text, utf8_text};

verus! {

/// Largest line, in bytes: 1 MiB.
pub const MAX_EVENT_LINE_BYTES: usize = 1_048_576;

/// Why a line cannot be had.
#[derive(Debug, Clone, PartialEq, Eq)]
pub enum LineError {
    /// The line is too long.
    TooLong,
    /// The line is not UTF-8, for this reason.
    NotUtf8(String),
}

/// What a [`LineError`] is mathematically.
pub enum LineFault {
    TooLong,
    NotUtf8(Seq<char>),
}

impl LineFault {
    /// The error in words.
    pub open spec fn says(self) -> Seq<char> {
        match self {
            LineFault::TooLong => "herdr event line exceeded size cap without a newline"@,
            LineFault::NotUtf8(why) => why,
        }
    }
}

impl View for LineError {
    type V = LineFault;

    open spec fn view(&self) -> LineFault {
        match self {
            LineError::TooLong => LineFault::TooLong,
            LineError::NotUtf8(why) => LineFault::NotUtf8(why@),
        }
    }
}

impl LineError {
    /// The error in words.
    pub fn message(&self) -> (s: &str)
        ensures
            s@ == self@.says(),
    {
        match self {
            LineError::TooLong => "herdr event line exceeded size cap without a newline",
            LineError::NotUtf8(why) => why.as_str(),
        }
    }
}

/// What a chunk leads to.
#[derive(Debug, PartialEq, Eq)]
pub enum LineStep {
    /// A line, without its newline.
    Line(String),
    /// The chunk is used up, and the line goes on.
    More,
    /// No line, but an error.
    Failed(LineError),
}

/// A reader of lines.
#[derive(Debug)]
pub struct LineReader {
    pending: Vec<u8>,
    max_line: usize,
}

/// Whether a byte ends a line.
pub open spec fn newline() -> spec_fn(u8) -> bool {
    |b: u8| b == 10
}

/// Bytes as a line, or the error if they are none.
pub open spec fn line_of(bytes: Seq<u8>) -> Result<Seq<char>, LineFault> {
    if valid_utf8(bytes) {
        Ok(decode_utf8(bytes))
    } else {
        Err(LineFault::NotUtf8(utf8_error_text(bytes)))
    }
}

/// What one step does: how much of the chunk it uses, what stays unfinished, and the
/// line or error that comes out, if any.
#[verifier::ext_equal]
pub struct Taken {
    pub used: int,
    pub pending: Seq<u8>,
    pub out: Option<Result<Seq<char>, LineFault>>,
}

/// What one step does with a chunk: up to the first newline it finishes the line, and a
/// chunk without one is kept. A line that is too long by then is dropped.
pub open spec fn taken(pending: Seq<u8>, max: nat, chunk: Seq<u8>) -> Taken {
    let k = first_index(chunk, newline());
    if k < chunk.len() && pending.len() + k > max {
        Taken { used: k + 1, pending: Seq::empty(), out: Some(Err(LineFault::TooLong)) }
    } else if k < chunk.len() {
        Taken { used: k + 1, pending: Seq::empty(), out: Some(line_of(pending + chunk.take(k))) }
    } else if pending.len() + chunk.len() > max {
        Taken {
            used: chunk.len() as int,
            pending: Seq::empty(),
            out: Some(Err(LineFault::TooLong)),
        }
    } else {
        Taken { used: chunk.len() as int, pending: pending + chunk, out: None }
    }
}

impl LineStep {
    /// The line or error of a step.
    pub open spec fn out(&self) -> Option<Result<Seq<char>, LineFault>> {
        match self {
            LineStep::Line(t) => Some(Ok(t@)),
            LineStep::More => None,
            LineStep::Failed(e) => Some(Err(e@)),
        }
    }
}

/// Turns the bytes of a line into text.
fn take_utf8(bytes: Vec<u8>) -> (step: LineStep)
    ensures
        step.out() == Some(line_of(bytes@)),
{
    match utf8_text(bytes) {
        Ok(t) => LineStep::Line(t),
        Err(why) => LineStep::Failed(LineError::NotUtf8(why)),
    }
}

impl LineReader {
    /// What has been read of an unfinished line.
    pub closed spec fn pending(&self) -> Seq<u8> {
        self.pending@
    }

    /// How long a line may be.
    pub closed spec fn limit(&self) -> nat {
        self.max_line as nat
    }

    /// The unfinished line is within its bound.
    pub open spec fn wf(&self) -> bool {
        self.pending().len() <= self.limit()
    }

    /// A reader at the start of a stream.
    pub fn new() -> (r: Self)
        ensures
            r.wf(),
            r.pending() == Seq::<u8>::empty(),
            r.limit() == MAX_EVENT_LINE_BYTES,
    {
        LineReader { pending: Vec::new(), max_line: MAX_EVENT_LINE_BYTES }
    }

    /// Takes what it needs of a chunk: says how many bytes it used, and what they lead
    /// to.
    pub fn next_line(&mut self, chunk: &[u8]) -> (r: (usize, LineStep))
        requires
            old(self).wf(),
        ensures
            final(self).wf(),
            final(self).limit() == old(self).limit(),
            (Taken { used: r.0 as int, pending: final(self).pending(), out: r.1.out() }) == taken(
                old(self).pending(),
                old(self).limit(),
                chunk@,
            ),
    {
        let ghost before = self.pending@;
        let n: usize = chunk.len();
        let mut pos: usize = 0;
        while pos < n && chunk[pos] != 10
            invariant
                pos <= n,
                n == chunk@.len(),
                forall|j: int| 0 <= j < pos ==> !newline()(#[trigger] chunk@[j]),
            decreases n - pos,
        {
            pos = pos + 1;
        }
        proof {
            lemma_first_index(chunk@, newline(), pos as int);
        }
        if pos < n && pos > self.max_line - self.pending.len() {
            self.pending = Vec::new();
            proof {
                assert(self.pending@ =~= Seq::<u8>::empty());
            }
            (pos + 1, LineStep::Failed(LineError::TooLong))
        } else if pos < n {
            let mut line: Vec<u8> = Vec::new();
            std::mem::swap(&mut line, &mut self.pending);
            line.extend_from_slice(vstd::slice::slice_subrange(chunk, 0, pos));
            proof {
                assert(chunk@.subrange(0, pos as int) =~= chunk@.take(pos as int));
                assert(line@ =~= before + chunk@.take(pos as int));
                assert(self.pending@ =~= Seq::<u8>::empty());
            }
            (pos + 1, take_utf8(line))
        } else if n > self.max_line - self.pending.len() {
            self.pending = Vec::new();
            proof {
                assert(self.pending@ =~= Seq::<u8>::empty());
            }
            (n, LineStep::Failed(LineError::TooLong))
        } else {
            self.pending.extend_from_slice(chunk);
            proof {
                assert(self.pending@ =~= before + chunk@);
            }
            (n, LineStep::More)
        }
    }

    /// The stream has ended: what was left unfinished is a last line, if there is
    /// anything.
    pub fn finish(&mut self) -> (r: Option<LineStep>)
        requires
            old(self).wf(),
        ensures
            final(self).wf(),
            final(self).limit() == old(self).limit(),
            final(self).pending() == Seq::<u8>::empty(),
            match r {
                Some(step) => old(self).pending().len() > 0 && step.out() == Some(
                    line_of(old(self).pending()),
                ),
                None => old(self).pending().len() == 0,
            },
    {
        if self.pending.len() == 0 {
            proof {
                assert(self.pending@ =~= Seq::<u8>::empty());
            }
            return None;
        }
        let mut line: Vec<u8> = Vec::new();
        std::mem::swap(&mut line, &mut self.pending);
        proof {
            assert(self.pending@ =~= Seq::<u8>::empty());
        }
        Some(take_utf8(line))
    }
}

// ----------------------------------------------------------------------- laws

/// What reading a stretch of bytes gives: the lines and errors, and what stays
/// unfinished.
#[verifier::ext_equal]
pub struct Reading {
    pub out: Seq<Result<Seq<char>, LineFault>>,
    pub pending: Seq<u8>,
}

/// Reads a stretch of bytes step by step.
pub open spec fn read(pending: Seq<u8>, max: nat, bytes: Seq<u8>) -> Reading
    decreases bytes.len(),
{
    if bytes.len() == 0 {
        Reading { out: Seq::empty(), pending }
    } else {
        let t = taken(pending, max, bytes);
        if 0 < t.used <= bytes.len() {
            let rest = read(t.pending, max, bytes.skip(t.used));
            match t.out {
                Some(o) => Reading { out: seq![o] + rest.out, pending: rest.pending },
                None => rest,
            }
        } else {
            Reading { out: Seq::empty(), pending }
        }
    }
}

/// Whether no stretch without a newline is longer than `max`.
pub open spec fn within(max: nat, bytes: Seq<u8>) -> bool {
    forall|i: int, j: int|
        0 <= i <= j <= bytes.len() && !(#[trigger] bytes.subrange(i, j)).contains(10u8) ==> j - i
            <= max
}

proof fn lemma_within_skip(max: nat, bytes: Seq<u8>, k: int)
    requires
        within(max, bytes),
        0 <= k <= bytes.len(),
    ensures
        within(max, bytes.skip(k)),
{
    let rest = bytes.skip(k);
    assert forall|i: int, j: int|
        0 <= i <= j <= rest.len() && !(#[trigger] rest.subrange(i, j)).contains(10u8) implies j - i
        <= max by {
        assert(rest.subrange(i, j) =~= bytes.subrange(i + k, j + k));
    }
}

proof fn lemma_no_newline(bytes: Seq<u8>)
    ensures
        first_index(bytes, newline()) == bytes.len() <==> !bytes.contains(10u8),
{
    lemma_first_index_meaning(bytes, newline());
    let k = first_index(bytes, newline());
    if k < bytes.len() {
        assert(bytes[k] == 10u8);
    } else if bytes.contains(10u8) {
        let j = choose|j: int| 0 <= j < bytes.len() && bytes[j] == 10u8;
        assert(newline()(bytes[j]));
    }
}

/// Two stretches without a newline make one without.
proof fn lemma_no_newline_in_both(a: Seq<u8>, b: Seq<u8>)
    requires
        !a.contains(10u8),
        forall|j: int| 0 <= j < b.len() ==> !newline()(#[trigger] b[j]),
    ensures
        !(a + b).contains(10u8),
{
    if (a + b).contains(10u8) {
        let j = choose|j: int| 0 <= j < (a + b).len() && (a + b)[j] == 10u8;
        if j < a.len() {
            assert(a[j] == 10u8);
        } else {
            assert(newline()(b[j - a.len()]));
        }
    }
}

/// Lines do not depend on where the chunks of a stream begin and end: reading `a` and
/// then `b` gives the same as reading both at once, as long as no line is longer than
/// the bound.
pub proof fn law_lines_do_not_depend_on_chunks(pending: Seq<u8>, max: nat, a: Seq<u8>, b: Seq<u8>)
    requires
        within(max, pending + a + b),
        !pending.contains(10u8),
    ensures
        ({
            let first = read(pending, max, a);
            let second = read(first.pending, max, b);
            read(pending, max, a + b) == (Reading {
                out: first.out + second.out,
                pending: second.pending,
            })
        }),
    decreases a.len(),
{
    let p = newline();
    let whole = a + b;
    lemma_first_index_meaning(a, p);
    lemma_first_index_meaning(b, p);
    let first = read(pending, max, a);
    let second = read(first.pending, max, b);
    let k = first_index(a, p);
    if a.len() == 0 {
        assert(whole =~= b);
        assert(first.out + second.out =~= second.out);
    } else if k < a.len() {
        assert forall|j: int| 0 <= j < k implies !p(#[trigger] whole[j]) by {
            assert(whole[j] == a[j]);
        }
        assert(whole[k] == a[k]);
        lemma_first_index(whole, p, k);
        assert(whole.take(k) =~= a.take(k));
        assert(whole.skip(k + 1) =~= a.skip(k + 1) + b);
        let all = pending + a + b;
        assert(all.subrange(0, pending.len() + k) =~= pending + a.take(k));
        lemma_no_newline_in_both(pending, a.take(k));
        assert(all.skip(pending.len() + k + 1) =~= Seq::<u8>::empty() + a.skip(k + 1) + b);
        lemma_within_skip(max, all, pending.len() + k + 1);
        law_lines_do_not_depend_on_chunks(Seq::empty(), max, a.skip(k + 1), b);
        let o = line_of(pending + a.take(k));
        let rest = read(Seq::empty(), max, a.skip(k + 1));
        assert(first.out =~= seq![o] + rest.out);
        assert(seq![o] + (rest.out + second.out) =~= first.out + second.out);
    } else {
        reveal_with_fuel(read, 2);
        lemma_no_newline(a);
        let all = pending + a + b;
        assert(all.subrange(0, (pending.len() + a.len()) as int) =~= pending + a);
        lemma_no_newline_in_both(pending, a);
        assert(a.skip(a.len() as int) =~= Seq::<u8>::empty());
        assert(taken(pending, max, a).out is None);
        assert(first == (Reading { out: Seq::empty(), pending: pending + a }));
        assert(first.out + second.out =~= second.out);
        let m = first_index(b, p);
        if b.len() == 0 {
            assert(whole =~= a);
        } else if m < b.len() {
            assert forall|j: int| 0 <= j < a.len() + m implies !p(#[trigger] whole[j]) by {
                if j < a.len() {
                    assert(whole[j] == a[j]);
                } else {
                    assert(whole[j] == b[j - a.len()]);
                }
            }
            assert(whole[a.len() + m] == b[m]);
            lemma_first_index(whole, p, a.len() + m);
            assert(pending + whole.take(a.len() + m) =~= pending + a + b.take(m));
            assert(all.subrange(0, pending.len() + a.len() + m) =~= pending + a + b.take(m));
            lemma_no_newline_in_both(pending + a, b.take(m));
            assert(whole.skip(a.len() + m + 1) =~= b.skip(m + 1));
        } else {
            assert forall|j: int| 0 <= j < whole.len() implies !p(#[trigger] whole[j]) by {
                if j < a.len() {
                    assert(whole[j] == a[j]);
                } else {
                    assert(whole[j] == b[j - a.len()]);
                }
            }
            lemma_first_index(whole, p, whole.len() as int);
            assert(pending + whole =~= pending + a + b);
            assert(whole.skip(whole.len() as int) =~= Seq::<u8>::empty());
            assert(b.skip(b.len() as int) =~= Seq::<u8>::empty());
            lemma_no_newline(b);
            lemma_no_newline_in_both(pending + a, b);
            assert(all.subrange(0, all.len() as int) =~= all);
        }
    }
}

/// A line within the bound comes out as it was sent, whatever its newline is followed
/// by.
pub proof fn law_a_line_comes_out_as_it_went_in(max: nat, line: Seq<u8>, rest: Seq<u8>)
    requires
        !line.contains(10u8),
        line.len() <= max,
    ensures
        read(Seq::empty(), max, line + seq![10u8] + rest) == (Reading {
            out: seq![line_of(line)] + read(Seq::empty(), max, rest).out,
            pending: read(Seq::empty(), max, rest).pending,
        }),
{
    let all = line + seq![10u8] + rest;
    let k = line.len() as int;
    assert forall|j: int| 0 <= j < k implies !newline()(#[trigger] all[j]) by {
        assert(all[j] == line[j]);
        assert(line.contains(line[j]));
    }
    lemma_first_index(all, newline(), k);
    assert(Seq::<u8>::empty() + all.take(k) =~= line);
    assert(all.skip(k + 1) =~= rest);
}

/// A line beyond the bound is an error, whatever its newline is followed by, and the
/// line after it is read as if nothing had been there.
pub proof fn law_an_overlong_line_is_refused(max: nat, line: Seq<u8>, rest: Seq<u8>)
    requires
        !line.contains(10u8),
        line.len() > max,
    ensures
        read(Seq::empty(), max, line + seq![10u8] + rest) == (Reading {
            out: seq![Err::<Seq<char>, LineFault>(LineFault::TooLong)] + read(
                Seq::empty(),
                max,
                rest,
            ).out,
            pending: read(Seq::empty(), max, rest).pending,
        }),
{
    let all = line + seq![10u8] + rest;
    let k = line.len() as int;
    assert forall|j: int| 0 <= j < k implies !newline()(#[trigger] all[j]) by {
        assert(all[j] == line[j]);
        assert(line.contains(line[j]));
    }
    lemma_first_index(all, newline(), k);
    assert(all.skip(k + 1) =~= rest);
}

/// No line is longer than the bound, in bytes: neither one that comes out, however the
/// stream is cut, nor what is held back of an unfinished one.
pub proof fn law_no_line_is_longer_than_the_bound(
    pending: Seq<u8>,
    max: nat,
    bytes: Seq<u8>,
    i: int,
)
    requires
        pending.len() <= max,
    ensures
        read(pending, max, bytes).pending.len() <= max,
        0 <= i < read(pending, max, bytes).out.len() ==> (read(pending, max, bytes).out[i] matches Ok(
            line,
        ) ==> encode_utf8(line).len() <= max),
    decreases bytes.len(),
{
    let t = taken(pending, max, bytes);
    if bytes.len() > 0 && 0 < t.used <= bytes.len() {
        lemma_first_index_meaning(bytes, newline());
        let k = first_index(bytes, newline());
        if t.out matches Some(Ok(line)) {
            decode_utf8_encode_utf8(pending + bytes.take(k));
        }
        law_no_line_is_longer_than_the_bound(
            t.pending,
            max,
            bytes.skip(t.used),
            if t.out is Some {
                i - 1
            } else {
                i
            },
        );
    }
}

} // verus!
