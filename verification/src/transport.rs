//! Newline-delimited framing of the ACP byte stream: every message is one
//! JSON object on one line. Writing emits exactly one terminating newline
//! per frame; reading strips the line ending and skips blank lines.

use vstd::prelude::*;
use vstd::utf8::{encode_scalar, encode_utf8};
use crate::text::owned;
use crate::jsonrpc::{classified, classify, classify_inbound, malformed, routed, Inbound, RawMessage};

verus! {

/// Upper bound on a single frame, so a misbehaving peer cannot force
/// unbounded buffering.
pub const MAX_FRAME_BYTES: usize = 16 * 1024 * 1024;

/// A failure reading or writing frames, with the underlying error's text.
#[derive(Debug, Clone, PartialEq, Eq)]
pub enum WireError {
    Io(String),
    Json(String),
    Malformed(String),
}

/// The text of a wire error, as its `Display` form renders it.
pub open spec fn wire_error_text(e: WireError) -> Seq<char> {
    match e {
        WireError::Io(m) => "i/o error: "@ + m@,
        WireError::Json(m) => "json error: "@ + m@,
        WireError::Malformed(m) => "malformed ACP frame: "@ + m@,
    }
}

impl WireError {
    pub fn message(&self) -> (res: String)
        ensures
            res@ == wire_error_text(*self),
    {
        match self {
            WireError::Io(m) => crate::text::concat2("i/o error: ", m.as_str()),
            WireError::Json(m) => crate::text::concat2("json error: ", m.as_str()),
            WireError::Malformed(m) => crate::text::concat2("malformed ACP frame: ", m.as_str()),
        }
    }
}

/// Whether a byte ends a line.
pub open spec fn is_line_end(b: u8) -> bool {
    b == 10u8 || b == 13u8
}

/// `bytes` without its trailing `\n` and `\r` bytes.
pub open spec fn strip_line_end(bytes: Seq<u8>) -> Seq<u8>
    decreases bytes.len(),
{
    if bytes.len() > 0 && is_line_end(bytes.last()) {
        strip_line_end(bytes.drop_last())
    } else {
        bytes
    }
}

/// The bytes sent for an encoded frame: the frame without its trailing line
/// ending, then exactly one `\n`.
pub open spec fn framed(bytes: Seq<u8>) -> Seq<u8> {
    strip_line_end(bytes).push(10u8)
}

/// The bytes that carry `frame` on the wire.
pub fn frame_bytes(frame: &[u8]) -> (res: Vec<u8>)
    ensures
        res@ == framed(frame@),
{
    let mut end = frame.len();
    proof {
        assert(frame@.take(end as int) =~= frame@);
    }
    while end > 0 && (frame[end - 1] == 10u8 || frame[end - 1] == 13u8)
        invariant
            end <= frame@.len(),
            strip_line_end(frame@.take(end as int)) == strip_line_end(frame@),
        decreases end,
    {
        proof {
            assert(frame@.take(end as int).drop_last() =~= frame@.take(end - 1));
        }
        end = end - 1;
    }
    let mut out: Vec<u8> = Vec::new();
    let mut i: usize = 0;
    while i < end
        invariant
            end <= frame@.len(),
            i <= end,
            out@ == frame@.take(i as int),
        decreases end - i,
    {
        out.push(frame[i]);
        i = i + 1;
        proof {
            assert(out@ =~= frame@.take(i as int));
        }
    }
    out.push(10u8);
    proof {
        assert(strip_line_end(frame@.take(end as int)) == frame@.take(end as int));
    }
    out
}

/// Writes `bytes` completely.
///
/// Calls `std::io::Write::write_all`; whether the write succeeds depends on
/// the writer, so only the error's text is promised on failure.
#[verifier::external_body]
fn write_all<W: std::io::Write>(writer: &mut W, bytes: &[u8]) -> (res: Result<(), String>) {
    writer.write_all(bytes).map_err(|e| e.to_string())
}

/// Flushes the writer.
///
/// Calls `std::io::Write::flush`; whether it succeeds depends on the writer.
#[verifier::external_body]
fn flush<W: std::io::Write>(writer: &mut W) -> (res: Result<(), String>) {
    writer.flush().map_err(|e| e.to_string())
}

/// Writes newline-terminated frames to an underlying writer.
#[derive(Debug)]
pub struct FrameWriter<W> {
    inner: W,
}

impl<W> FrameWriter<W> {
    /// The writer frames go to.
    pub closed spec fn sink(self) -> W {
        self.inner
    }
}

impl<W: std::io::Write> FrameWriter<W> {
    pub fn new(inner: W) -> (res: Self)
        ensures
            res.sink() == inner,
    {
        FrameWriter { inner }
    }

    /// Writes an already-encoded JSON object as one frame with exactly one
    /// trailing newline, body and newline in a single write, then flushes.
    pub fn write_encoded(&mut self, frame: &[u8]) -> (res: Result<(), WireError>)
        ensures
            res matches Err(e) ==> e is Io,
    {
        let bytes = frame_bytes(frame);
        match write_all(&mut self.inner, bytes.as_slice()) {
            Ok(()) => {},
            Err(m) => return Err(WireError::Io(m)),
        }
        match flush(&mut self.inner) {
            Ok(()) => Ok(()),
            Err(m) => Err(WireError::Io(m)),
        }
    }

    pub fn into_inner(self) -> (res: W)
        ensures
            res == self.sink(),
    {
        self.inner
    }
}

/// What one line read from the stream gives.
#[derive(Debug, Clone, PartialEq, Eq)]
pub enum LineStep {
    /// Nothing was read: the stream has ended.
    End,
    /// The line is longer than a frame may be.
    TooLong,
    /// The line holds nothing but its ending; the reader goes on.
    Blank,
    /// The frame the line carries.
    Frame(String),
}

/// `s` without its trailing `\n` and `\r` characters.
pub open spec fn strip_char_line_end(s: Seq<char>) -> Seq<char>
    decreases s.len(),
{
    if s.len() > 0 && (s.last() == '\n' || s.last() == '\r') {
        strip_char_line_end(s.drop_last())
    } else {
        s
    }
}

/// Whether `line` is longer, in UTF-8 bytes, than a frame may be.
pub open spec fn over_limit(line: Seq<char>) -> bool {
    encode_utf8(line).len() > MAX_FRAME_BYTES
}

/// Whether `line` is a blank line: something was read, within the limit,
/// and nothing but a line ending.
pub open spec fn is_blank_line(line: Seq<char>) -> bool {
    line.len() > 0 && !over_limit(line) && strip_char_line_end(line).len() == 0
}

/// What reading `line` gives: the end of the stream for an empty read, a
/// refusal for a line over the limit, a skip for a blank line, and else the
/// line without its ending as a frame.
pub open spec fn line_step_of(line: Seq<char>, res: LineStep) -> bool {
    if line.len() == 0 {
        res is End
    } else if over_limit(line) {
        res is TooLong
    } else if strip_char_line_end(line).len() == 0 {
        res is Blank
    } else {
        res matches LineStep::Frame(f) && f@ == strip_char_line_end(line)
    }
}

/// Decides what one line read from the stream gives.
pub fn read_step(line: &str) -> (res: LineStep)
    ensures
        line_step_of(line@, res),
{
    let size = line.as_bytes().len();
    proof {
        if line@.len() > 0 {
            assert(encode_utf8(line@) == encode_scalar(line@[0] as u32) + encode_utf8(line@.drop_first()));
        }
    }
    if size == 0 {
        return LineStep::End;
    }
    if size > MAX_FRAME_BYTES {
        return LineStep::TooLong;
    }
    let mut end = line.unicode_len();
    proof {
        assert(line@.take(end as int) =~= line@);
    }
    while end > 0 && (line.get_char(end - 1) == '\n' || line.get_char(end - 1) == '\r')
        invariant
            end <= line@.len(),
            strip_char_line_end(line@.take(end as int)) == strip_char_line_end(line@),
        decreases end,
    {
        proof {
            assert(line@.take(end as int).drop_last() =~= line@.take(end - 1));
        }
        end = end - 1;
    }
    proof {
        assert(strip_char_line_end(line@.take(end as int)) == line@.take(end as int));
        assert(line@.take(end as int) =~= line@.subrange(0, end as int));
    }
    if end == 0 {
        LineStep::Blank
    } else {
        LineStep::Frame(owned(line.substring_char(0, end)))
    }
}

/// The error for a line over the size limit.
pub fn frame_too_long() -> (res: WireError)
    ensures
        res matches WireError::Malformed(m) && m@ == "frame exceeds 16777216 bytes"@,
{
    WireError::Malformed(owned("frame exceeds 16777216 bytes"))
}

/// Reads one line, its ending included, into a fresh string; the string is
/// empty only at the end of the stream.
///
/// Calls `std::io::BufRead::read_line`. What it reads depends on the
/// reader, so nothing is stated of the line; a failure gives the error's
/// text.
#[verifier::external_body]
fn read_line<R: std::io::BufRead>(reader: &mut R) -> (res: Result<String, String>) {
    let mut line = String::new();
    match reader.read_line(&mut line) {
        Ok(_) => Ok(line),
        Err(e) => Err(e.to_string()),
    }
}

/// How many blank lines in a row a reader skips before it gives up.
pub const MAX_BLANK_LINES: u64 = 0xffff_ffff_ffff_ffff;

/// Whether every line of `lines` is blank.
pub open spec fn all_blank(lines: Seq<Seq<char>>) -> bool {
    forall|i: int| 0 <= i < lines.len() ==> is_blank_line(#[trigger] lines[i])
}

/// Whether `lines`, read one after another, are blank lines and then a
/// line that carries the frame `text`.
pub open spec fn frame_found(lines: Seq<Seq<char>>, text: Seq<char>) -> bool {
    &&& lines.len() > 0
    &&& all_blank(lines.drop_last())
    &&& lines.last().len() > 0
    &&& !over_limit(lines.last())
    &&& text.len() > 0
    &&& strip_char_line_end(lines.last()) == text
}

/// What one frame read gives, where `lines` are the lines it read: blank
/// lines are skipped; then an empty read ends the stream, a line over the
/// limit is refused, and any other line gives its frame. A failed read is
/// an i/o error; after [`MAX_BLANK_LINES`] blank lines in a row the reader
/// gives up.
pub open spec fn frame_read(lines: Seq<Seq<char>>, res: Result<Option<String>, WireError>) -> bool {
    if all_blank(lines) {
        (res matches Err(WireError::Io(_))) || (lines.len() == MAX_BLANK_LINES + 1 && (res matches Err(e)
            && malformed(e, "too many blank lines"@)))
    } else {
        &&& lines.len() > 0
        &&& all_blank(lines.drop_last())
        &&& if lines.last().len() == 0 {
            res matches Ok(None)
        } else if over_limit(lines.last()) {
            res matches Err(e) && malformed(e, "frame exceeds 16777216 bytes"@)
        } else {
            res matches Ok(Some(f)) && f@ == strip_char_line_end(lines.last())
        }
    }
}

/// Whether the log of lines read `after` extends the log `before`.
pub open spec fn read_more(before: Seq<Seq<char>>, after: Seq<Seq<char>>) -> bool {
    after.len() >= before.len() && after.take(before.len() as int) == before
}

/// The lines of the log `after` that were read since the log `before`.
pub open spec fn new_lines(before: Seq<Seq<char>>, after: Seq<Seq<char>>) -> Seq<Seq<char>> {
    after.skip(before.len() as int)
}

/// Reads newline-delimited frames from an underlying buffered reader.
pub struct FrameReader<R> {
    inner: R,
    lines: Ghost<Seq<Seq<char>>>,
}

impl<R> FrameReader<R> {
    /// The reader frames come from.
    pub closed spec fn source(self) -> R {
        self.inner
    }

    /// The lines read from the source so far, in order.
    pub closed spec fn lines_read(self) -> Seq<Seq<char>> {
        self.lines@
    }
}

impl<R: std::io::BufRead> FrameReader<R> {
    pub fn new(inner: R) -> (res: Self)
        ensures
            res.source() == inner,
            res.lines_read() == Seq::<Seq<char>>::empty(),
    {
        FrameReader { inner, lines: Ghost(Seq::empty()) }
    }

    /// The next frame, or `None` at the end of the stream: each line read
    /// goes through [`read_step`], so blank lines are skipped, a line over
    /// [`MAX_FRAME_BYTES`] is refused, and a frame comes without its line
    /// ending. A failed read is an i/o error. After [`MAX_BLANK_LINES`]
    /// blank lines in a row the reader gives up with a malformed-frame
    /// error.
    pub fn read_frame(&mut self) -> (res: Result<Option<String>, WireError>)
        ensures
            read_more(old(self).lines_read(), final(self).lines_read()),
            frame_read(new_lines(old(self).lines_read(), final(self).lines_read()), res),
    {
        let ghost start = self.lines@.len();
        let mut budget: u64 = MAX_BLANK_LINES;
        proof {
            assert(self.lines@.skip(start as int) =~= Seq::<Seq<char>>::empty());
            assert(self.lines@.take(start as int) =~= self.lines@);
        }
        loop
            invariant
                self.lines@.len() >= start,
                self.lines@.take(start as int) == old(self).lines_read(),
                all_blank(self.lines@.skip(start as int)),
                self.lines@.len() - start + budget == MAX_BLANK_LINES,
            decreases budget,
        {
            let ghost before = self.lines@;
            let line = match read_line(&mut self.inner) {
                Ok(line) => line,
                Err(m) => return Err(WireError::Io(m)),
            };
            self.lines = Ghost(self.lines@.push(line@));
            proof {
                assert(self.lines@.take(start as int) =~= before.take(start as int));
                assert(self.lines@.skip(start as int) =~= before.skip(start as int).push(line@));
                assert(self.lines@.skip(start as int).drop_last() =~= before.skip(start as int));
                let fresh = self.lines@.skip(start as int);
                assert(fresh[fresh.len() - 1] == line@);
            }
            match read_step(line.as_str()) {
                LineStep::End => return Ok(None),
                LineStep::TooLong => return Err(frame_too_long()),
                LineStep::Frame(frame) => return Ok(Some(frame)),
                LineStep::Blank => {},
            }
            if budget == 0 {
                return Err(WireError::Malformed(owned("too many blank lines")));
            }
            budget = budget - 1;
        }
    }

    pub fn into_inner(self) -> (res: R)
        ensures
            res == self.source(),
    {
        self.inner
    }
}

/// Stripping the line ending twice strips no more than once.
pub proof fn lemma_strip_char_line_end_idempotent(s: Seq<char>)
    ensures
        strip_char_line_end(strip_char_line_end(s)) == strip_char_line_end(s),
    decreases s.len(),
{
    if s.len() > 0 && (s.last() == '\n' || s.last() == '\r') {
        lemma_strip_char_line_end_idempotent(s.drop_last());
    }
}

/// The UTF-8 encoding of two texts one after the other is the encoding of
/// the first followed by that of the second.
proof fn lemma_encode_utf8_concat(a: Seq<char>, b: Seq<char>)
    ensures
        encode_utf8(a + b) == encode_utf8(a) + encode_utf8(b),
    decreases a.len(),
{
    if a.len() == 0 {
        assert(a + b =~= b);
        assert(encode_utf8(a) + encode_utf8(b) =~= encode_utf8(b));
    } else {
        assert((a + b).drop_first() =~= a.drop_first() + b);
        assert((a + b)[0] == a[0]);
        lemma_encode_utf8_concat(a.drop_first(), b);
        let head = encode_scalar(a[0] as u32);
        assert(head + (encode_utf8(a.drop_first()) + encode_utf8(b)) =~= (head + encode_utf8(a.drop_first()))
            + encode_utf8(b));
    }
}

/// The encoding of one character ends in a line-ending byte exactly when
/// the character is a line ending, and a newline is the single byte 10.
proof fn lemma_scalar_line_end(c: char)
    ensures
        encode_scalar(c as u32).len() > 0,
        is_line_end(encode_scalar(c as u32).last()) <==> (c == '\n' || c == '\r'),
        c == '\n' ==> encode_scalar(c as u32) == seq![10u8],
        c == '\r' ==> encode_scalar(c as u32) == seq![13u8],
{
    broadcast use vstd::utf8::char_is_scalar, vstd::utf8::char_u32_cast;

    let v: u32 = c as u32;
    assert(('\n' as u32) == 10u32);
    assert(('\r' as u32) == 13u32);
    if v <= 0x7F {
        assert((v & 0x7F) == v) by (bit_vector)
            requires
                v <= 0x7F,
        ;
        assert(encode_scalar(v) == seq![v as u8]);
        if v == 10 {
            assert(c == (v as char));
            assert(('\n' as u32) as char == '\n');
        }
        if v == 13 {
            assert(c == (v as char));
            assert(('\r' as u32) as char == '\r');
        }
    } else {
        let low: u8 = (v & 0x3F) as u8;
        let last: u8 = 0x80u8 | low;
        assert(last >= 0x80u8) by (bit_vector)
            requires
                last == 0x80u8 | low,
        ;
    }
}

/// A text of one character encodes as that character.
proof fn lemma_encode_single(c: char)
    ensures
        encode_utf8(seq![c]) == encode_scalar(c as u32),
{
    let one = seq![c];
    assert(one.drop_first() =~= Seq::<char>::empty());
    assert(encode_utf8(Seq::<char>::empty()) == Seq::<u8>::empty());
    assert(encode_utf8(one) == encode_scalar(one[0] as u32) + encode_utf8(one.drop_first()));
    assert(encode_utf8(one) =~= encode_scalar(c as u32));
}

/// Stripping line endings commutes with UTF-8 encoding: the bytes of a
/// text without its line ending are its bytes without their line ending.
proof fn lemma_strip_encode(s: Seq<char>)
    ensures
        strip_line_end(encode_utf8(s)) == encode_utf8(strip_char_line_end(s)),
    decreases s.len(),
{
    if s.len() > 0 {
        let rest = s.drop_last();
        let c = s.last();
        assert(s =~= rest + seq![c]);
        lemma_encode_utf8_concat(rest, seq![c]);
        lemma_encode_single(c);
        lemma_scalar_line_end(c);
        let bytes = encode_utf8(s);
        assert(bytes == encode_utf8(rest) + encode_scalar(c as u32));
        assert(bytes.last() == encode_scalar(c as u32).last());
        if c == '\n' || c == '\r' {
            assert(bytes.drop_last() =~= encode_utf8(rest));
            lemma_strip_encode(rest);
        }
    }
}

/// Frames read back as they were written: the bytes sent for a frame
/// whose text, without its line ending, is non-empty and leaves room for
/// the newline within [`MAX_FRAME_BYTES`] are that text and one newline,
/// and reading that line gives back exactly that text. A stream that has
/// ended reads as `None`.
pub proof fn lemma_frame_round_trip(s: Seq<char>)
    requires
        strip_char_line_end(s).len() > 0,
        encode_utf8(strip_char_line_end(s)).len() < MAX_FRAME_BYTES,
    ensures
        framed(encode_utf8(s)) == encode_utf8(strip_char_line_end(s).push('\n')),
        forall|res: Result<Option<String>, WireError>| #[trigger]
            frame_read(seq![strip_char_line_end(s).push('\n')], res) ==> (res matches Ok(Some(f)) && f@
                == strip_char_line_end(s)),
        forall|res: Result<Option<String>, WireError>| #[trigger]
            frame_read(seq![Seq::<char>::empty()], res) ==> res matches Ok(None),
{
    let text = strip_char_line_end(s);
    let line = text.push('\n');
    lemma_strip_encode(s);
    lemma_strip_char_line_end_idempotent(s);
    assert(line =~= text + seq!['\n']);
    lemma_encode_utf8_concat(text, seq!['\n']);
    lemma_scalar_line_end('\n');
    lemma_encode_single('\n');
    assert(framed(encode_utf8(s)) =~= encode_utf8(line));
    assert(line.last() == '\n');
    assert(line.drop_last() =~= text);
    assert(strip_char_line_end(line) == text);
    let lines = seq![line];
    assert(lines[0] == line);
    assert(!is_blank_line(lines[0]));
    assert(lines.drop_last() =~= Seq::<Seq<char>>::empty());
    let ended = seq![Seq::<char>::empty()];
    assert(ended[0].len() == 0);
    assert(!is_blank_line(ended[0]));
    assert(ended.drop_last() =~= Seq::<Seq<char>>::empty());
}

/// What a peer that writes `frames` and then closes sends, line by line:
/// each frame ended by one newline, then the empty read of the end of the
/// stream.
pub open spec fn stream_of_frames(frames: Seq<Seq<char>>) -> Seq<Seq<char>> {
    Seq::new(frames.len() + 1, |i: int| if i < frames.len() { frames[i].push('\n') } else { Seq::<char>::empty() })
}

/// Whether `f` can travel as one frame: non-empty, with no line ending at
/// its end, and room for the newline within [`MAX_FRAME_BYTES`].
pub open spec fn sendable_frame(f: Seq<char>) -> bool {
    f.len() > 0 && strip_char_line_end(f) == f && encode_utf8(f).len() < MAX_FRAME_BYTES
}

/// No line of a stream of sendable frames is blank.
proof fn lemma_stream_not_blank(frames: Seq<Seq<char>>, j: int)
    requires
        forall|i: int| 0 <= i < frames.len() ==> sendable_frame(#[trigger] frames[i]),
        0 <= j < frames.len() + 1,
    ensures
        !is_blank_line(stream_of_frames(frames)[j]),
        j < frames.len() ==> stream_of_frames(frames)[j].len() > 0 && !over_limit(stream_of_frames(frames)[j])
            && strip_char_line_end(stream_of_frames(frames)[j]) == frames[j],
        j == frames.len() ==> stream_of_frames(frames)[j].len() == 0,
{
    if j < frames.len() {
        let f = frames[j];
        let line = f.push('\n');
        assert(sendable_frame(f));
        assert(line.drop_last() =~= f);
        assert(strip_char_line_end(line) == strip_char_line_end(f));
        assert(line =~= f + seq!['\n']);
        lemma_encode_utf8_concat(f, seq!['\n']);
        lemma_scalar_line_end('\n');
        lemma_encode_single('\n');
    }
}

/// One read from a reader whose lines are those of a stream of sendable
/// frames, past the first `i` lines, reads nothing if it failed, and else
/// reads exactly line `i` and gives its frame, or `None` at the end.
proof fn lemma_read_one_frame(frames: Seq<Seq<char>>, before: Seq<Seq<char>>, after: Seq<Seq<char>>,
    res: Result<Option<String>, WireError>)
    requires
        forall|i: int| 0 <= i < frames.len() ==> sendable_frame(#[trigger] frames[i]),
        after.len() <= stream_of_frames(frames).len(),
        after == stream_of_frames(frames).take(after.len() as int),
        read_more(before, after),
        frame_read(new_lines(before, after), res),
    ensures
        res matches Err(WireError::Io(_)) ==> after.len() == before.len(),
        !(res matches Err(WireError::Io(_))) ==> {
            &&& after.len() == before.len() + 1
            &&& before.len() < frames.len() ==> (res matches Ok(Some(f)) && f@ == frames[before.len() as int])
            &&& before.len() == frames.len() ==> res matches Ok(None)
        },
{
    let stream = stream_of_frames(frames);
    let i = before.len() as int;
    let fresh = new_lines(before, after);
    assert forall|k: int| 0 <= k < fresh.len() implies !is_blank_line(#[trigger] fresh[k]) by {
        assert(fresh[k] == stream[i + k]);
        lemma_stream_not_blank(frames, i + k);
    }
    if fresh.len() == 0 {
        assert(all_blank(fresh));
    } else {
        assert(!is_blank_line(fresh[0]));
        assert(!all_blank(fresh));
        if fresh.len() > 1 {
            assert(fresh.drop_last()[0] == fresh[0]);
        }
        assert(fresh.len() == 1);
        assert(fresh.last() == stream[i]);
        lemma_stream_not_blank(frames, i);
    }
}

/// Whether read `k` extended the log `logs[k]` to `logs[k + 1]` and gave
/// `results[k]` as [`frame_read`] says.
pub open spec fn read_in_turn(logs: Seq<Seq<Seq<char>>>, results: Seq<Result<Option<String>, WireError>>, k: int) -> bool {
    read_more(logs[k], logs[k + 1]) && frame_read(new_lines(logs[k], logs[k + 1]), results[k])
}

/// How many of the first `k` reads in `results` did not fail.
pub open spec fn reads_done(results: Seq<Result<Option<String>, WireError>>, k: int) -> nat
    decreases k,
{
    if k <= 0 {
        0
    } else {
        reads_done(results, k - 1) + if results[k - 1] matches Err(WireError::Io(_)) { 0nat } else { 1nat }
    }
}

/// Whether read `k` of `results` gave what a stream of `frames` owes it: a
/// failed read gives nothing; else, with `m` reads done before it, the
/// `m`-th frame, or `None` once every frame was read.
pub open spec fn read_back(frames: Seq<Seq<char>>, results: Seq<Result<Option<String>, WireError>>, k: int) -> bool {
    let m = reads_done(results, k);
    !(results[k] matches Err(WireError::Io(_))) ==> {
        &&& m < frames.len() ==> (results[k] matches Ok(Some(f)) && f@ == frames[m as int])
        &&& m == frames.len() ==> results[k] matches Ok(None)
    }
}

/// Frames read back as they were sent, in order: where the lines a fresh
/// reader gets are those of a peer that wrote the sendable `frames` and
/// then closed, the reads that did not fail give the frames one by one in
/// order, and the one after the last frame gives `None`; a failed read
/// consumes no line. `logs[k]` is the reader's log of lines read before
/// read `k`, and `results[k]` what read `k` gave.
pub proof fn law_frames_read_back_in_order(frames: Seq<Seq<char>>, logs: Seq<Seq<Seq<char>>>,
    results: Seq<Result<Option<String>, WireError>>)
    requires
        forall|i: int| 0 <= i < frames.len() ==> sendable_frame(#[trigger] frames[i]),
        logs.len() == results.len() + 1,
        logs[0].len() == 0,
        forall|k: int| 0 <= k < logs.len() ==> (#[trigger] logs[k]).len() <= stream_of_frames(frames).len()
            && logs[k] == stream_of_frames(frames).take(logs[k].len() as int),
        forall|k: int| 0 <= k < results.len() ==> #[trigger] read_in_turn(logs, results, k),
    ensures
        forall|k: int| 0 <= k < results.len() ==> #[trigger] read_back(frames, results, k),
{
    lemma_reads_up_to(frames, logs, results, results.len() as int);
}

/// The first `k` reads of [`law_frames_read_back_in_order`] read one line
/// each, but for the failed ones, and give the frames in order.
proof fn lemma_reads_up_to(frames: Seq<Seq<char>>, logs: Seq<Seq<Seq<char>>>,
    results: Seq<Result<Option<String>, WireError>>, k: int)
    requires
        forall|i: int| 0 <= i < frames.len() ==> sendable_frame(#[trigger] frames[i]),
        logs.len() == results.len() + 1,
        logs[0].len() == 0,
        forall|k: int| 0 <= k < logs.len() ==> (#[trigger] logs[k]).len() <= stream_of_frames(frames).len()
            && logs[k] == stream_of_frames(frames).take(logs[k].len() as int),
        forall|k: int| 0 <= k < results.len() ==> #[trigger] read_in_turn(logs, results, k),
        0 <= k <= results.len(),
    ensures
        logs[k].len() == reads_done(results, k),
        forall|j: int| 0 <= j < k ==> #[trigger] read_back(frames, results, j),
    decreases k,
{
    if k > 0 {
        let j = k - 1;
        lemma_reads_up_to(frames, logs, results, j);
        let before = logs[j];
        let after = logs[j + 1];
        assert(after.len() <= stream_of_frames(frames).len() && after == stream_of_frames(frames).take(after.len() as int));
        assert(read_in_turn(logs, results, j));
        lemma_read_one_frame(frames, before, after, results[j]);
        assert(read_back(frames, results, j));
    }
}

/// A bidirectional newline-delimited JSON transport over a reader and a
/// writer.
pub struct Transport<R, W> {
    reader: FrameReader<R>,
    writer: FrameWriter<W>,
}

impl<R, W> Transport<R, W> {
    /// The reading half.
    pub closed spec fn reading(self) -> FrameReader<R> {
        self.reader
    }

    /// The writing half.
    pub closed spec fn writing(self) -> FrameWriter<W> {
        self.writer
    }
}

impl<R: std::io::BufRead, W: std::io::Write> Transport<R, W> {
    pub fn new(reader: R, writer: W) -> (res: Self)
        ensures
            res.reading().source() == reader,
            res.writing().sink() == writer,
    {
        Transport { reader: FrameReader::new(reader), writer: FrameWriter::new(writer) }
    }

    /// The two halves.
    pub fn split(self) -> (res: (FrameReader<R>, FrameWriter<W>))
        ensures
            res.0 == self.reading(),
            res.1 == self.writing(),
    {
        (self.reader, self.writer)
    }

    /// Writes raw encoded bytes as one frame: see [`FrameWriter::write_encoded`].
    pub fn send_raw(&mut self, frame: &[u8]) -> (res: Result<(), WireError>)
        ensures
            res matches Err(e) ==> e is Io,
    {
        self.writer.write_encoded(frame)
    }

    /// The next frame: see [`FrameReader::read_frame`].
    pub fn recv_line(&mut self) -> (res: Result<Option<String>, WireError>)
        ensures
            read_more(old(self).reading().lines_read(), final(self).reading().lines_read()),
            frame_read(new_lines(old(self).reading().lines_read(), final(self).reading().lines_read()), res),
            final(self).writing() == old(self).writing(),
    {
        self.reader.read_frame()
    }

    /// The next frame, told apart by [`crate::jsonrpc::classify`].
    pub fn recv_raw(&mut self) -> (res: Result<Option<RawMessage>, WireError>)
        ensures
            read_more(old(self).reading().lines_read(), final(self).reading().lines_read()),
            message_read(new_lines(old(self).reading().lines_read(), final(self).reading().lines_read()), res),
            final(self).writing() == old(self).writing(),
    {
        let ghost before = self.reader.lines@;
        match self.recv_line() {
            Ok(Some(line)) => {
                proof {
                    lemma_frame_read_found(new_lines(before, self.reader.lines@), line);
                }
                match classify(line.as_str()) {
                    Ok(message) => Ok(Some(message)),
                    Err(e) => Err(e),
                }
            },
            Ok(None) => Ok(None),
            Err(e) => Err(e),
        }
    }

    /// The next frame, routed as the host sees it by
    /// [`crate::jsonrpc::classify_inbound`].
    pub fn recv_inbound(&mut self) -> (res: Result<Option<Inbound>, WireError>)
        ensures
            read_more(old(self).reading().lines_read(), final(self).reading().lines_read()),
            inbound_read(new_lines(old(self).reading().lines_read(), final(self).reading().lines_read()), res),
            final(self).writing() == old(self).writing(),
    {
        let ghost before = self.reader.lines@;
        match self.recv_line() {
            Ok(Some(line)) => {
                proof {
                    lemma_frame_read_found(new_lines(before, self.reader.lines@), line);
                }
                match classify_inbound(line.as_str()) {
                    Ok(message) => Ok(Some(message)),
                    Err(e) => Err(e),
                }
            },
            Ok(None) => Ok(None),
            Err(e) => Err(e),
        }
    }
}

/// A frame read gives the frame that the last line read carries.
proof fn lemma_frame_read_found(lines: Seq<Seq<char>>, f: String)
    requires
        frame_read(lines, Ok(Some(f))),
    ensures
        frame_found(lines, f@),
        f@ == strip_char_line_end(lines.last()),
{
    if all_blank(lines) {
    } else {
        if is_blank_line(lines[lines.len() - 1]) {
            assert forall|i: int| 0 <= i < lines.len() implies is_blank_line(#[trigger] lines[i]) by {
                if i < lines.len() - 1 {
                    assert(lines.drop_last()[i] == lines[i]);
                }
            }
        }
    }
}

/// What reading one message gives, where `lines` are the lines read: the
/// end of the stream or a failed read as [`frame_read`] says, or the
/// classification of the frame the last line carries.
pub open spec fn message_read(lines: Seq<Seq<char>>, res: Result<Option<RawMessage>, WireError>) -> bool {
    let text = strip_char_line_end(lines.last());
    match res {
        Ok(None) => frame_read(lines, Ok(None)),
        Ok(Some(m)) => frame_found(lines, text) && classified(text, Ok(m)),
        Err(e) => frame_read(lines, Err(e)) || (frame_found(lines, text) && classified(text, Err(e))),
    }
}

/// What reading one message for the host gives, where `lines` are the
/// lines read: as [`message_read`], with a classified message routed by
/// its method.
pub open spec fn inbound_read(lines: Seq<Seq<char>>, res: Result<Option<Inbound>, WireError>) -> bool {
    let text = strip_char_line_end(lines.last());
    match res {
        Ok(None) => frame_read(lines, Ok(None)),
        Ok(Some(i)) => frame_found(lines, text) && exists|m: RawMessage| classified(text, Ok(m)) && routed(m, i),
        Err(e) => frame_read(lines, Err(e)) || (frame_found(lines, text) && classified(text, Err(e))),
    }
}

} // verus!
