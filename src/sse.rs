//! Framing of a server-sent-event token stream. Each network chunk is split
//! into lines; a line that starts with `data: ` carries a payload; the payload
//! `[DONE]` ends the whole stream, and later chunks are ignored.
use vstd::prelude::*;

verus! {

/// Whether `line` starts with `data: `.
pub open spec fn is_data_line(line: Seq<u8>) -> bool {
    line.len() >= 6 && line[0] == 0x64u8 && line[1] == 0x61u8 && line[2] == 0x74u8 && line[3]
        == 0x61u8 && line[4] == 0x3au8 && line[5] == 0x20u8
}

/// Whether `payload` is `[DONE]`.
pub open spec fn is_done_marker(payload: Seq<u8>) -> bool {
    payload.len() == 6 && payload[0] == 0x5bu8 && payload[1] == 0x44u8 && payload[2] == 0x4fu8
        && payload[3] == 0x4eu8 && payload[4] == 0x45u8 && payload[5] == 0x5du8
}

/// `line` without one carriage return at its end.
pub open spec fn strip_cr(line: Seq<u8>) -> Seq<u8> {
    if line.len() > 0 && line.last() == 0x0du8 {
        line.drop_last()
    } else {
        line
    }
}

/// The lines ended by a newline so far (without it or a carriage return
/// before it), and the bytes of the line not yet ended.
pub open spec fn line_state(b: Seq<u8>) -> (Seq<Seq<u8>>, Seq<u8>)
    decreases b.len(),
{
    if b.len() == 0 {
        (Seq::empty(), Seq::empty())
    } else {
        let (ls, cur) = line_state(b.drop_last());
        if b.last() == 0x0au8 {
            (ls.push(strip_cr(cur)), Seq::empty())
        } else {
            (ls, cur.push(b.last()))
        }
    }
}

/// The lines of a chunk: those ended by a newline, then the unended rest if
/// it is not empty.
pub open spec fn split_lines(b: Seq<u8>) -> Seq<Seq<u8>> {
    let (ls, cur) = line_state(b);
    if cur.len() > 0 {
        ls.push(cur)
    } else {
        ls
    }
}

/// The payloads of the data lines in order, up to the first `[DONE]`, and
/// whether a `[DONE]` was met.
pub open spec fn frame_events(lines: Seq<Seq<u8>>) -> (Seq<Seq<u8>>, bool)
    decreases lines.len(),
{
    if lines.len() == 0 {
        (Seq::empty(), false)
    } else {
        let (ps, done) = frame_events(lines.drop_last());
        let line = lines.last();
        if done {
            (ps, true)
        } else if is_data_line(line) {
            if is_done_marker(line.skip(6)) {
                (ps, true)
            } else {
                (ps.push(line.skip(6)), false)
            }
        } else {
            (ps, false)
        }
    }
}

/// The byte contents of each buffer, in order.
pub open spec fn byte_views(v: Seq<Vec<u8>>) -> Seq<Seq<u8>> {
    v.map_values(|x: Vec<u8>| x@)
}

fn copy_range(b: &[u8], start: usize, end: usize) -> (r: Vec<u8>)
    requires
        start <= end <= b@.len(),
    ensures
        r@ == b@.subrange(start as int, end as int),
{
    let mut out: Vec<u8> = Vec::new();
    let mut i: usize = start;
    while i < end
        invariant
            start <= i <= end <= b@.len(),
            out@ == b@.subrange(start as int, i as int),
        decreases end - i,
    {
        out.push(b[i]);
        i = i + 1;
        assert(out@ =~= b@.subrange(start as int, i as int));
    }
    out
}

/// Splits a chunk into lines at each newline, dropping a carriage return
/// that precedes the newline; an unended last line counts when not empty.
pub fn lines_of(chunk: &[u8]) -> (r: Vec<Vec<u8>>)
    ensures
        byte_views(r@) == split_lines(chunk@),
{
    let mut lines: Vec<Vec<u8>> = Vec::new();
    let mut cur: Vec<u8> = Vec::new();
    let mut i: usize = 0;
    while i < chunk.len()
        invariant
            i <= chunk@.len(),
            (byte_views(lines@), cur@) == line_state(chunk@.take(i as int)),
        decreases chunk@.len() - i,
    {
        assert(chunk@.take(i + 1).drop_last() =~= chunk@.take(i as int));
        let c = chunk[i];
        if c == 0x0au8 {
            let n = cur.len();
            let line = if n > 0 && cur[n - 1] == 0x0du8 {
                copy_range(cur.as_slice(), 0, n - 1)
            } else {
                copy_range(cur.as_slice(), 0, n)
            };
            assert(line@ =~= strip_cr(cur@));
            let ghost prev = lines@;
            lines.push(line);
            assert(byte_views(lines@) =~= byte_views(prev).push(line@));
            cur = Vec::new();
        } else {
            cur.push(c);
        }
        i = i + 1;
    }
    assert(chunk@.take(i as int) =~= chunk@);
    if cur.len() > 0 {
        let ghost prev = lines@;
        let ghost last = cur@;
        lines.push(cur);
        assert(byte_views(lines@) =~= byte_views(prev).push(last));
    }
    lines
}

fn data_line(line: &[u8]) -> (r: bool)
    ensures
        r == is_data_line(line@),
{
    line.len() >= 6 && line[0] == 0x64u8 && line[1] == 0x61u8 && line[2] == 0x74u8 && line[3]
        == 0x61u8 && line[4] == 0x3au8 && line[5] == 0x20u8
}

fn done_marker(payload: &[u8]) -> (r: bool)
    ensures
        r == is_done_marker(payload@),
{
    payload.len() == 6 && payload[0] == 0x5bu8 && payload[1] == 0x44u8 && payload[2] == 0x4fu8
        && payload[3] == 0x4eu8 && payload[4] == 0x45u8 && payload[5] == 0x5du8
}

/// The payloads of the data lines of `lines` up to the first `[DONE]`, and
/// whether one was met.
pub fn frames_of(lines: &Vec<Vec<u8>>) -> (r: (Vec<Vec<u8>>, bool))
    ensures
        (byte_views(r.0@), r.1) == frame_events(byte_views(lines@)),
{
    let mut payloads: Vec<Vec<u8>> = Vec::new();
    let mut done = false;
    let mut i: usize = 0;
    while i < lines.len()
        invariant
            i <= lines@.len(),
            (byte_views(payloads@), done) == frame_events(byte_views(lines@).take(i as int)),
        decreases lines@.len() - i,
    {
        assert(byte_views(lines@).take(i + 1).drop_last() =~= byte_views(lines@).take(i as int));
        assert(byte_views(lines@).take(i + 1).last() == lines@[i as int]@);
        if !done {
            let line = &lines[i];
            if data_line(line.as_slice()) {
                let payload = copy_range(line.as_slice(), 6, line.len());
                assert(payload@ =~= line@.skip(6));
                if done_marker(payload.as_slice()) {
                    done = true;
                } else {
                    let ghost prev = payloads@;
                    let ghost p = payload@;
                    payloads.push(payload);
                    assert(byte_views(payloads@) =~= byte_views(prev).push(p));
                }
            }
        }
        i = i + 1;
    }
    assert(byte_views(lines@).take(i as int) =~= byte_views(lines@));
    (payloads, done)
}

/// Incremental state of one streamed reply: the text gathered so far and
/// whether the stream has ended.
pub struct StreamDecoder {
    finished: bool,
    text: String,
}

impl StreamDecoder {
    pub closed spec fn spec_finished(&self) -> bool {
        self.finished
    }

    pub closed spec fn spec_text(&self) -> Seq<char> {
        self.text@
    }

    pub fn new() -> (r: Self)
        ensures
            !r.spec_finished(),
            r.spec_text() == Seq::<char>::empty(),
    {
        StreamDecoder { finished: false, text: String::new() }
    }

    /// Whether a `[DONE]` payload has been seen.
    pub fn is_finished(&self) -> (r: bool)
        ensures
            r == self.spec_finished(),
    {
        self.finished
    }

    /// The text gathered so far.
    pub fn text(&self) -> (r: &str)
        ensures
            r@ == self.spec_text(),
    {
        self.text.as_str()
    }

    /// The text gathered, once the stream is over.
    pub fn into_text(self) -> (r: String)
        ensures
            r@ == self.spec_text(),
    {
        self.text
    }

    /// Takes the next network chunk and returns the payloads it carries, in
    /// order, up to a `[DONE]`, which ends the stream. After the end, chunks
    /// carry nothing.
    pub fn feed(&mut self, chunk: &[u8]) -> (r: Vec<Vec<u8>>)
        ensures
            old(self).spec_finished() ==> r@.len() == 0 && final(self).spec_finished(),
            !old(self).spec_finished() ==> (byte_views(r@), final(self).spec_finished())
                == frame_events(split_lines(chunk@)),
            final(self).spec_text() == old(self).spec_text(),
    {
        if self.finished {
            return Vec::new();
        }
        let lines = lines_of(chunk);
        let (payloads, done) = frames_of(&lines);
        self.finished = done;
        payloads
    }

    /// Adds the text delta of one payload to the gathered text.
    pub fn push_delta(&mut self, delta: &str)
        ensures
            final(self).spec_text() == old(self).spec_text() + delta@,
            final(self).spec_finished() == old(self).spec_finished(),
    {
        self.text.append(delta);
    }
}

} // verus!
