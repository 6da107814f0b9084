//! Reading one output stream of the worker: bytes are cut into complete lines,
//! each line is classified, announced and kept in the stream's tail buffer.

use vstd::prelude::*;
use vstd::utf8::{decode_utf8, valid_utf8};
use crate::buffer::{buffered, retained, LineBuffer};
use crate::text::{contains, contains_char, contains_text};

verus! {

/// Which of the worker's two output streams a line came from.
#[derive(Clone, Copy, Debug, PartialEq, Eq, Structural)]
pub enum StreamOrigin {
    Stdout,
    Stderr,
}

/// One line of worker output, tagged with the name of its stream.
#[derive(Debug)]
pub struct CliOutput {
    pub output_type: String,
    pub text: String,
}

/// What the supervisor tells its observer.
#[derive(Debug)]
pub enum Notification {
    /// A line that looks like progress, passed on as it is.
    Progress { text: String },
    /// Any line of output.
    Output { output: CliOutput },
    /// The preview image changed; the payload is a data URL.
    Preview { data_url: String },
}

/// A notification with its strings as sequences of characters.
pub enum NotificationView {
    Progress { text: Seq<char> },
    Output { output_type: Seq<char>, text: Seq<char> },
    Preview { data_url: Seq<char> },
}

impl View for Notification {
    type V = NotificationView;

    open spec fn view(&self) -> NotificationView {
        match *self {
            Notification::Progress { text } => NotificationView::Progress { text: text@ },
            Notification::Output { output } => NotificationView::Output {
                output_type: output.output_type@,
                text: output.text@,
            },
            Notification::Preview { data_url } => NotificationView::Preview {
                data_url: data_url@,
            },
        }
    }
}

/// The views of a sequence of notifications.
pub open spec fn notes(v: Seq<Notification>) -> Seq<NotificationView> {
    Seq::new(v.len(), |i: int| v[i]@)
}

pub open spec fn origin_label(origin: StreamOrigin) -> Seq<char> {
    match origin {
        StreamOrigin::Stdout => "stdout"@,
        StreamOrigin::Stderr => "stderr"@,
    }
}

/// A line bears progress when it holds a percent sign or the word "step" in
/// either spelling.
pub open spec fn is_progress_text(line: Seq<char>) -> bool {
    line.contains('%') || contains_text(line, "step"@) || contains_text(line, "Step"@)
}

/// What one line makes the observer hear: a progress notification first when
/// the line bears progress, and always the line itself.
pub open spec fn line_notifications(origin: StreamOrigin, line: Seq<char>) -> Seq<
    NotificationView,
> {
    let output = NotificationView::Output { output_type: origin_label(origin), text: line };
    if is_progress_text(line) {
        seq![NotificationView::Progress { text: line }, output]
    } else {
        seq![output]
    }
}

/// What a run of lines makes the observer hear, line after line.
pub open spec fn notifications_of(origin: StreamOrigin, lines: Seq<Seq<char>>) -> Seq<
    NotificationView,
>
    decreases lines.len(),
{
    if lines.len() == 0 {
        Seq::empty()
    } else {
        notifications_of(origin, lines.drop_last()) + line_notifications(origin, lines.last())
    }
}

/// Position of the first line feed in `s`, or `s.len()` when there is none.
pub open spec fn feed_position(s: Seq<u8>) -> int
    decreases s.len(),
{
    if s.len() == 0 || s[0] == 10u8 {
        0
    } else {
        1 + feed_position(s.skip(1))
    }
}

pub open spec fn without_return(l: Seq<u8>) -> Seq<u8> {
    if l.len() > 0 && l.last() == 13u8 {
        l.drop_last()
    } else {
        l
    }
}

/// The lines of `s` that a line feed ends, each without its terminator.
pub open spec fn complete_lines(s: Seq<u8>) -> Seq<Seq<u8>>
    decreases s.len(),
{
    let k = feed_position(s);
    if k < 0 || k >= s.len() {
        Seq::empty()
    } else {
        seq![without_return(s.take(k))] + complete_lines(s.skip(k + 1))
    }
}

/// What follows the last line feed of `s`: a line not yet ended.
pub open spec fn unfinished(s: Seq<u8>) -> Seq<u8>
    decreases s.len(),
{
    let k = feed_position(s);
    if k < 0 || k >= s.len() {
        s
    } else {
        unfinished(s.skip(k + 1))
    }
}

/// The lines that are well-formed UTF-8, decoded; the others are left out.
pub open spec fn decoded(raw: Seq<Seq<u8>>) -> Seq<Seq<char>>
    decreases raw.len(),
{
    if raw.len() == 0 {
        Seq::empty()
    } else if valid_utf8(raw.last()) {
        decoded(raw.drop_last()).push(decode_utf8(raw.last()))
    } else {
        decoded(raw.drop_last())
    }
}

proof fn lemma_feed_position(s: Seq<u8>, k: int)
    requires
        0 <= k <= s.len(),
        forall|j: int| 0 <= j < k ==> s[j] != 10u8,
        k < s.len() ==> s[k] == 10u8,
    ensures
        feed_position(s) == k,
    decreases k,
{
    if k > 0 {
        let t = s.skip(1);
        assert forall|j: int| 0 <= j < k - 1 implies t[j] != 10u8 by {
            assert(t[j] == s[j + 1]);
        }
        if k < s.len() {
            assert(t[k - 1] == s[k]);
        }
        lemma_feed_position(t, k - 1);
    }
}

proof fn lemma_feed_bounds(s: Seq<u8>)
    ensures
        0 <= feed_position(s) <= s.len(),
        feed_position(s) < s.len() ==> s[feed_position(s)] == 10u8,
        forall|j: int| 0 <= j < feed_position(s) ==> s[j] != 10u8,
    decreases s.len(),
{
    if s.len() == 0 || s[0] == 10u8 {
    } else {
        lemma_feed_bounds(s.skip(1));
        assert forall|j: int| 0 <= j < feed_position(s) implies s[j] != 10u8 by {
            if j > 0 {
                assert(s.skip(1)[j - 1] == s[j]);
            }
        }
    }
}

/// Where a stream is cut into chunks does not matter to its lines: the lines
/// that `a` and then `b` complete are those that `a` followed by `b`
/// completes, and the same bytes are left waiting.
pub proof fn lemma_chunks_do_not_matter(a: Seq<u8>, b: Seq<u8>)
    ensures
        complete_lines(a + b) == complete_lines(a) + complete_lines(unfinished(a) + b),
        unfinished(a + b) == unfinished(unfinished(a) + b),
    decreases a.len(),
{
    let k = feed_position(a);
    lemma_feed_bounds(a);
    if k >= a.len() {
        assert(complete_lines(a) + complete_lines(a + b) =~= complete_lines(a + b));
    } else {
        let all = a + b;
        assert forall|j: int| 0 <= j < k implies all[j] != 10u8 by {
            assert(all[j] == a[j]);
        }
        assert(all[k] == a[k]);
        lemma_feed_position(all, k);
        let rest = a.skip(k + 1);
        assert(all.take(k) =~= a.take(k));
        assert(all.skip(k + 1) =~= rest + b);
        lemma_chunks_do_not_matter(rest, b);
        let head = seq![without_return(a.take(k))];
        assert(complete_lines(all) == head + complete_lines(rest + b));
        assert(complete_lines(a) == head + complete_lines(rest));
        assert(unfinished(a) == unfinished(rest));
        assert(head + (complete_lines(rest) + complete_lines(unfinished(rest) + b)) =~= (head
            + complete_lines(rest)) + complete_lines(unfinished(rest) + b));
    }
}

/// Decoding goes line by line.
pub proof fn lemma_decoded_of_both(x: Seq<Seq<u8>>, y: Seq<Seq<u8>>)
    ensures
        decoded(x + y) == decoded(x) + decoded(y),
    decreases y.len(),
{
    if y.len() == 0 {
        assert(x + y =~= x);
        assert(decoded(x) + decoded(y) =~= decoded(x));
    } else {
        let all = x + y;
        assert(all.drop_last() =~= x + y.drop_last());
        assert(all.last() == y.last());
        lemma_decoded_of_both(x, y.drop_last());
        if valid_utf8(y.last()) {
            assert(decoded(all) =~= decoded(x) + decoded(y));
        }
    }
}

/// Announcing goes line by line.
pub proof fn lemma_notifications_of_both(
    origin: StreamOrigin,
    x: Seq<Seq<char>>,
    y: Seq<Seq<char>>,
)
    ensures
        notifications_of(origin, x + y) == notifications_of(origin, x) + notifications_of(
            origin,
            y,
        ),
    decreases y.len(),
{
    if y.len() == 0 {
        assert(x + y =~= x);
        assert(notifications_of(origin, x) + notifications_of(origin, y) =~= notifications_of(
            origin,
            x,
        ));
    } else {
        let all = x + y;
        assert(all.drop_last() =~= x + y.drop_last());
        assert(all.last() == y.last());
        lemma_notifications_of_both(origin, x, y.drop_last());
        assert(notifications_of(origin, all) =~= notifications_of(origin, x) + notifications_of(
            origin,
            y,
        ));
    }
}

/// Buffering goes line by line.
pub proof fn lemma_buffered_of_both(start: Seq<Seq<char>>, x: Seq<Seq<char>>, y: Seq<Seq<char>>)
    ensures
        buffered(start, x + y) == buffered(buffered(start, x), y),
    decreases y.len(),
{
    if y.len() == 0 {
        assert(x + y =~= x);
    } else {
        let all = x + y;
        assert(all.drop_last() =~= x + y.drop_last());
        assert(all.last() == y.last());
        lemma_buffered_of_both(start, x, y.drop_last());
    }
}

/// A stream that is fed in two chunks is read as if it had come in one: the
/// same lines are announced in the same order, the same lines are kept, and
/// the same bytes are left waiting.
pub proof fn lemma_feeding_in_pieces(
    origin: StreamOrigin,
    lines: Seq<Seq<char>>,
    pending: Seq<u8>,
    a: Seq<u8>,
    b: Seq<u8>,
)
    ensures
        unfinished(unfinished(pending + a) + b) == unfinished(pending + (a + b)),
        buffered(
            buffered(lines, decoded(complete_lines(pending + a))),
            decoded(complete_lines(unfinished(pending + a) + b)),
        ) == buffered(lines, decoded(complete_lines(pending + (a + b)))),
        notifications_of(origin, decoded(complete_lines(pending + a))) + notifications_of(
            origin,
            decoded(complete_lines(unfinished(pending + a) + b)),
        ) == notifications_of(origin, decoded(complete_lines(pending + (a + b)))),
{
    let first = pending + a;
    assert(first + b =~= pending + (a + b));
    lemma_chunks_do_not_matter(first, b);
    let x = complete_lines(first);
    let y = complete_lines(unfinished(first) + b);
    lemma_decoded_of_both(x, y);
    lemma_notifications_of_both(origin, decoded(x), decoded(y));
    lemma_buffered_of_both(lines, decoded(x), decoded(y));
}

/// `String::from_utf8`: succeeds exactly on well-formed UTF-8, and then gives
/// the text those bytes encode.
#[verifier::external_body]
fn decode_line(bytes: &Vec<u8>) -> (r: Option<String>)
    ensures
        r is Some <==> valid_utf8(bytes@),
        r is Some ==> r->0@ == decode_utf8(bytes@),
{
    match String::from_utf8(bytes.clone()) {
        Ok(s) => Some(s),
        Err(_) => None,
    }
}

fn bytes_between(v: &Vec<u8>, from: usize, to: usize) -> (r: Vec<u8>)
    requires
        from <= to <= v.len(),
    ensures
        r@ == v@.subrange(from as int, to as int),
{
    let mut out: Vec<u8> = Vec::new();
    let mut i: usize = from;
    while i < to
        invariant
            from <= i <= to,
            to <= v.len(),
            out@ == v@.subrange(from as int, i as int),
        decreases to - i,
    {
        out.push(v[i]);
        i += 1;
    }
    out
}

/// Cuts `data` into its complete lines and the unfinished rest.
pub fn split_lines(data: &Vec<u8>) -> (r: (Vec<Vec<u8>>, Vec<u8>))
    ensures
        r.0@.len() == complete_lines(data@).len(),
        forall|i: int| 0 <= i < r.0@.len() ==> (#[trigger] r.0@[i])@ == complete_lines(data@)[i],
        r.1@ == unfinished(data@),
{
    let mut out: Vec<Vec<u8>> = Vec::new();
    let mut start: usize = 0;
    let ghost mut done: Seq<Seq<u8>> = Seq::empty();
    proof {
        assert(data@.skip(0) =~= data@);
        assert(done + complete_lines(data@) =~= complete_lines(data@));
    }
    loop
        invariant
            start <= data.len(),
            out@.len() == done.len(),
            forall|i: int| 0 <= i < out@.len() ==> (#[trigger] out@[i])@ == done[i],
            complete_lines(data@) == done + complete_lines(data@.skip(start as int)),
            unfinished(data@) == unfinished(data@.skip(start as int)),
        decreases data.len() - start,
    {
        let ghost rest = data@.skip(start as int);
        let mut k: usize = start;
        while k < data.len() && data[k] != 10u8
            invariant
                start <= k <= data.len(),
                forall|j: int| start <= j < k ==> data@[j] != 10u8,
            decreases data.len() - k,
        {
            k += 1;
        }
        proof {
            assert forall|j: int| 0 <= j < k - start implies rest[j] != 10u8 by {
                assert(rest[j] == data@[start + j]);
            }
            if k < data.len() {
                assert(rest[k - start] == data@[k as int]);
            }
            lemma_feed_position(rest, k - start);
        }
        if k >= data.len() {
            let tail = bytes_between(data, start, k);
            proof {
                assert(tail@ =~= rest);
                assert(complete_lines(rest) == Seq::<Seq<u8>>::empty());
                assert(complete_lines(data@) =~= done);
            }
            return (out, tail);
        }
        let end: usize = if k > start && data[k - 1] == 13u8 {
            k - 1
        } else {
            k
        };
        let line = bytes_between(data, start, end);
        proof {
            let raw = rest.take(k - start);
            assert(raw =~= data@.subrange(start as int, k as int));
            if raw.len() > 0 {
                assert(raw.last() == data@[k - 1]);
            }
            assert(line@ =~= without_return(raw));
            assert(rest.skip(k - start + 1) =~= data@.skip(k + 1));
            done = done.push(without_return(raw));
            assert(complete_lines(data@) =~= done + complete_lines(data@.skip(k + 1)));
        }
        out.push(line);
        start = k + 1;
    }
}

/// Whether a line bears progress.
pub fn is_progress_line(line: &str) -> (r: bool)
    ensures
        r == is_progress_text(line@),
{
    contains_char(line, '%') || contains(line, "step") || contains(line, "Step")
}

impl StreamOrigin {
    /// The name under which lines of this stream are announced.
    pub fn label(&self) -> (r: String)
        ensures
            r@ == origin_label(*self),
    {
        match self {
            StreamOrigin::Stdout => "stdout".to_string(),
            StreamOrigin::Stderr => "stderr".to_string(),
        }
    }
}

/// The reader of one output stream.
pub struct LineReader {
    origin: StreamOrigin,
    buffer: LineBuffer,
    pending: Vec<u8>,
}

impl LineReader {
    pub closed spec fn origin(&self) -> StreamOrigin {
        self.origin
    }

    /// The lines kept for diagnostics, oldest first.
    pub closed spec fn lines(&self) -> Seq<Seq<char>> {
        self.buffer@
    }

    /// The bytes received after the last line feed.
    pub closed spec fn pending(&self) -> Seq<u8> {
        self.pending@
    }

    pub fn new(origin: StreamOrigin) -> (r: LineReader)
        ensures
            r.origin() == origin,
            r.lines() == Seq::<Seq<char>>::empty(),
            r.pending() == Seq::<u8>::empty(),
    {
        LineReader { origin, buffer: LineBuffer::new(), pending: Vec::new() }
    }

    /// Takes one complete line: announces it and keeps it in the tail buffer.
    pub fn accept_line(&mut self, line: String) -> (r: Vec<Notification>)
        ensures
            notes(r@) == line_notifications(old(self).origin(), line@),
            final(self).lines() == retained(old(self).lines().push(line@)),
            final(self).origin() == old(self).origin(),
            final(self).pending() == old(self).pending(),
    {
        let mut out: Vec<Notification> = Vec::new();
        if is_progress_line(line.as_str()) {
            out.push(Notification::Progress { text: line.clone() });
        }
        out.push(
            Notification::Output {
                output: CliOutput { output_type: self.origin.label(), text: line.clone() },
            },
        );
        self.buffer.push(line);
        assert(notes(out@) =~= line_notifications(old(self).origin(), line@));
        out
    }

    /// Takes the next bytes of the stream. Every line that these bytes
    /// complete is decoded, announced and buffered, in order; a line that is
    /// not UTF-8 is passed over; what follows the last line feed waits.
    pub fn feed(&mut self, chunk: &[u8]) -> (r: Vec<Notification>)
        ensures
            final(self).origin() == old(self).origin(),
            final(self).pending() == unfinished(old(self).pending() + chunk@),
            final(self).lines() == buffered(
                old(self).lines(),
                decoded(complete_lines(old(self).pending() + chunk@)),
            ),
            notes(r@) == notifications_of(
                old(self).origin(),
                decoded(complete_lines(old(self).pending() + chunk@)),
            ),
    {
        let ghost all = self.pending@ + chunk@;
        let mut data: Vec<u8> = Vec::new();
        core::mem::swap(&mut self.pending, &mut data);
        let mut i: usize = 0;
        while i < chunk.len()
            invariant
                i <= chunk.len(),
                data@ == old(self).pending@ + chunk@.take(i as int),
            decreases chunk.len() - i,
        {
            data.push(chunk[i]);
            assert(data@ =~= old(self).pending@ + chunk@.take(i + 1));
            i += 1;
        }
        assert(data@ =~= all) by {
            assert(chunk@.take(chunk.len() as int) =~= chunk@);
        }
        let (lines, rest) = split_lines(&data);
        self.pending = rest;
        let ghost raw = complete_lines(all);
        let mut out: Vec<Notification> = Vec::new();
        let mut j: usize = 0;
        let total: usize = lines.len();
        proof {
            assert(raw.take(0) =~= Seq::<Seq<u8>>::empty());
            assert(notes(out@) =~= Seq::<NotificationView>::empty());
        }
        while j < total
            invariant
                j <= total,
                total == raw.len(),
                lines@.len() == total,
                forall|k: int| 0 <= k < lines@.len() ==> (#[trigger] lines@[k])@ == raw[k],
                self.origin == old(self).origin,
                self.pending@ == unfinished(all),
                self.buffer@ == buffered(old(self).buffer@, decoded(raw.take(j as int))),
                notes(out@) == notifications_of(old(self).origin, decoded(raw.take(j as int))),
            decreases total - j,
        {
            let ghost seen = raw.take(j as int);
            let ghost next = raw.take(j + 1);
            proof {
                assert(lines@[j as int]@ == raw[j as int]);
                assert(next.drop_last() =~= seen);
                assert(next.last() == raw[j as int]);
            }
            match decode_line(&lines[j]) {
                Some(line) => {
                    let ghost before = notes(out@);
                    let mut heard = self.accept_line(line);
                    out.append(&mut heard);
                    proof {
                        let d = decoded(seen);
                        let e = decoded(next);
                        assert(e == d.push(line@));
                        assert(e.drop_last() =~= d);
                        assert(notes(out@) =~= before + line_notifications(
                            old(self).origin,
                            line@,
                        ));
                    }
                },
                None => {},
            }
            j += 1;
        }
        assert(raw.take(total as int) =~= raw);
        out
    }

    /// The tail buffer of this stream.
    pub fn buffer(&self) -> (r: &LineBuffer)
        ensures
            r@ == self.lines(),
    {
        &self.buffer
    }

    /// The most recent lines kept for diagnostics, at most `n` of them.
    pub fn tail(&self, n: usize) -> (r: Vec<String>)
        ensures
            crate::text::texts(r@) == crate::buffer::tail_of(self.lines(), n as int),
    {
        self.buffer.tail(n)
    }

    /// Ends the reading: an unfinished last line is dropped.
    pub fn finish(self) -> (r: LineBuffer)
        ensures
            r@ == self.lines(),
    {
        self.buffer
    }
}

} // verus!
