//! The bounded tail buffer that keeps the most recent lines of one stream.

use vstd::prelude::*;
use crate::text::texts;

verus! {

/// A buffer never holds more lines than this.
pub const LINE_CAP: usize = 200;

/// How many of the oldest lines leave at once when the cap is passed.
pub const EVICT_BATCH: usize = 100;

/// How many of the most recent lines a diagnostic tail shows.
pub const TAIL_LINES: usize = 10;

/// What is kept of `s` once a line was appended: all of it, or all but the
/// oldest hundred when it has grown past the cap.
pub open spec fn retained(s: Seq<Seq<char>>) -> Seq<Seq<char>> {
    if s.len() > LINE_CAP as int {
        s.skip(EVICT_BATCH as int)
    } else {
        s
    }
}

/// The last `n` entries of `s`, or all of `s` when it has fewer.
pub open spec fn tail_of(s: Seq<Seq<char>>, n: int) -> Seq<Seq<char>> {
    if s.len() <= n {
        s
    } else {
        s.skip(s.len() - n)
    }
}

/// What a buffer that held `start` holds after the lines of `lines` were
/// pushed in order.
pub open spec fn buffered(start: Seq<Seq<char>>, lines: Seq<Seq<char>>) -> Seq<Seq<char>>
    decreases lines.len(),
{
    if lines.len() == 0 {
        start
    } else {
        retained(buffered(start, lines.drop_last()).push(lines.last()))
    }
}

/// However many lines are pushed into an empty buffer, it holds at most 200 of
/// them, and what it holds are the most recent lines, in the order they came:
/// all of them when no more than 200 came, and never fewer than the last 101
/// after that.
pub proof fn lemma_buffer_keeps_recent_lines(lines: Seq<Seq<char>>)
    ensures
        buffered(Seq::empty(), lines).len() <= LINE_CAP,
        buffered(Seq::empty(), lines).len() <= lines.len(),
        buffered(Seq::empty(), lines) == lines.skip(
            lines.len() - buffered(Seq::empty(), lines).len(),
        ),
        lines.len() <= LINE_CAP ==> buffered(Seq::empty(), lines) == lines,
        lines.len() > LINE_CAP ==> buffered(Seq::empty(), lines).len() > EVICT_BATCH,
    decreases lines.len(),
{
    if lines.len() == 0 {
        assert(lines.skip(0) =~= lines);
    } else {
        let before = lines.drop_last();
        lemma_buffer_keeps_recent_lines(before);
        let kept = buffered(Seq::empty(), before);
        let grown = kept.push(lines.last());
        let k = before.len() - kept.len();
        assert(grown =~= lines.skip(k));
        if grown.len() > LINE_CAP as int {
            assert(grown.skip(EVICT_BATCH as int) =~= lines.skip(k + EVICT_BATCH as int));
        }
        if lines.len() <= LINE_CAP {
            assert(lines.skip(0) =~= lines);
        }
    }
}

/// The most recent lines of one output stream, at most 200 of them.
pub struct LineBuffer {
    lines: Vec<String>,
}

impl View for LineBuffer {
    type V = Seq<Seq<char>>;

    closed spec fn view(&self) -> Seq<Seq<char>> {
        texts(self.lines@)
    }
}

impl LineBuffer {
    #[verifier::type_invariant]
    spec fn within_cap(self) -> bool {
        self.lines@.len() <= LINE_CAP
    }

    pub fn new() -> (r: LineBuffer)
        ensures
            r@ == Seq::<Seq<char>>::empty(),
    {
        let r = LineBuffer { lines: Vec::new() };
        assert(r@ =~= Seq::<Seq<char>>::empty());
        r
    }

    pub fn len(&self) -> (n: usize)
        ensures
            n == self@.len(),
            n <= LINE_CAP,
    {
        proof {
            use_type_invariant(self);
        }
        self.lines.len()
    }

    /// Appends a line; when that makes 201, the oldest 100 leave.
    pub fn push(&mut self, line: String)
        ensures
            final(self)@ == retained(old(self)@.push(line@)),
            final(self)@.len() <= LINE_CAP,
    {
        proof {
            use_type_invariant(&*self);
        }
        let ghost before = self.lines@;
        let mut lines: Vec<String> = Vec::new();
        core::mem::swap(&mut self.lines, &mut lines);
        if lines.len() >= LINE_CAP {
            let mut kept = lines.split_off(EVICT_BATCH);
            kept.push(line);
            self.lines = kept;
            assert(self@ =~= texts(before).push(line@).skip(EVICT_BATCH as int));
        } else {
            lines.push(line);
            self.lines = lines;
            assert(self@ =~= texts(before).push(line@));
        }
    }

    /// Copies of the last `n` lines, oldest first.
    pub fn tail(&self, n: usize) -> (r: Vec<String>)
        ensures
            texts(r@) == tail_of(self@, n as int),
    {
        let len: usize = self.lines.len();
        let start: usize = if len <= n {
            0
        } else {
            len - n
        };
        let mut out: Vec<String> = Vec::new();
        let mut i: usize = start;
        while i < len
            invariant
                start <= i <= len,
                len == self.lines@.len(),
                out@.len() == i - start,
                forall|j: int| 0 <= j < out@.len() ==> (#[trigger] out@[j])@ == self.lines@[start + j]@,
            decreases len - i,
        {
            let copy = self.lines[i].clone();
            out.push(copy);
            i += 1;
        }
        assert(texts(out@) =~= tail_of(self@, n as int));
        out
    }
}

} // verus!
