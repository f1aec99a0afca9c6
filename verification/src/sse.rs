//! Incremental decoding of the streamed completion response.
//!
//! The response body arrives as transport chunks of bytes carrying
//! newline-separated frames; a frame line starting with `data: ` carries
//! either the terminating `[DONE]` sentinel or a JSON payload whose content
//! delta, when present, is one fragment of the message. Chunk boundaries
//! fall anywhere, including inside a line, so the decoder buffers the
//! trailing incomplete line of each chunk and only ever interprets complete
//! lines. Malformed payloads and payloads without a content delta yield no
//! fragment and never abort the stream.

use vstd::prelude::*;

verus! {

/// The content delta a frame payload carries at `choices[0].delta.content`,
/// or nothing when the payload is not valid JSON or holds no string there.
/// What it yields depends on the payload bytes alone.
pub uninterp spec fn frame_content(payload: Seq<u8>) -> Option<Seq<char>>;

/// Relies on serde_json::from_slice and serde_json::Value's index and
/// as_str: parsing the payload and reading the string at
/// `choices[0].delta.content` is a function of the payload bytes alone;
/// a payload that does not parse, or carries no string there, yields none.
#[verifier::external_body]
fn parse_frame(payload: &[u8]) -> (r: Option<String>)
    ensures
        r is Some <==> frame_content(payload@) is Some,
        r matches Some(f) ==> frame_content(payload@) == Some(f@),
{
    match serde_json::from_slice::<serde_json::Value>(payload) {
        Ok(v) => v["choices"][0]["delta"]["content"].as_str().map(|s| s.to_string()),
        Err(_) => None,
    }
}

/// The newline byte that separates frames.
pub open spec fn nl() -> u8 {
    10u8
}

/// Is `b` ASCII whitespace (space, tab, carriage return, line feed)?
pub open spec fn is_ascii_ws(b: u8) -> bool {
    b == 32u8 || b == 9u8 || b == 13u8 || b == 10u8
}

/// `s` without leading and trailing ASCII whitespace.
pub open spec fn trim_bytes(s: Seq<u8>) -> Seq<u8>
    decreases s.len(),
{
    if s.len() > 0 && is_ascii_ws(s.first()) {
        trim_bytes(s.drop_first())
    } else if s.len() > 0 && is_ascii_ws(s.last()) {
        trim_bytes(s.drop_last())
    } else {
        s
    }
}

/// The frame prefix `data: ` as bytes.
pub open spec fn spec_data_prefix() -> Seq<u8> {
    seq![100u8, 97u8, 116u8, 97u8, 58u8, 32u8]
}

/// The stream-end sentinel `[DONE]` as bytes.
pub open spec fn spec_done_sentinel() -> Seq<u8> {
    seq![91u8, 68u8, 79u8, 78u8, 69u8, 93u8]
}

/// Does `s` start with `prefix`?
pub open spec fn starts_with(s: Seq<u8>, prefix: Seq<u8>) -> bool {
    s.len() >= prefix.len() && s.subrange(0, prefix.len() as int) == prefix
}

/// The fragment one complete line yields: the payload's content delta for a
/// `data: ` line that is neither the sentinel nor contentless, nothing
/// otherwise.
pub open spec fn spec_line_fragment(line: Seq<u8>) -> Option<Seq<char>> {
    if starts_with(line, spec_data_prefix()) {
        let payload = trim_bytes(line.skip(6));
        if payload == spec_done_sentinel() {
            None
        } else {
            frame_content(payload)
        }
    } else {
        None
    }
}

/// An optional fragment as a sequence of zero or one fragments.
pub open spec fn frag_seq(f: Option<Seq<char>>) -> Seq<Seq<char>> {
    match f {
        Some(c) => seq![c],
        None => Seq::empty(),
    }
}

/// The fragments and the pending partial line after feeding `input`, byte
/// by byte, to a decoder whose pending partial line is `line`.
pub open spec fn spec_decode(line: Seq<u8>, input: Seq<u8>) -> (Seq<Seq<char>>, Seq<u8>)
    decreases input.len(),
{
    if input.len() == 0 {
        (Seq::empty(), line)
    } else if input.first() == nl() {
        let rest = spec_decode(Seq::empty(), input.drop_first());
        (frag_seq(spec_line_fragment(line)) + rest.0, rest.1)
    } else {
        spec_decode(line.push(input.first()), input.drop_first())
    }
}

/// `s` without leading and trailing ASCII whitespace.
fn trim_ascii(s: &[u8]) -> (r: &[u8])
    ensures
        r@ == trim_bytes(s@),
{
    let mut lo: usize = 0;
    let mut hi: usize = s.len();
    proof {
        assert(s@.subrange(0, s@.len() as int) =~= s@);
    }
    while lo < hi && (s[lo] == 32u8 || s[lo] == 9u8 || s[lo] == 13u8 || s[lo] == 10u8)
        invariant
            lo <= hi <= s@.len(),
            trim_bytes(s@) == trim_bytes(s@.subrange(lo as int, hi as int)),
        decreases hi - lo,
    {
        proof {
            assert(s@.subrange(lo as int, hi as int).drop_first() =~= s@.subrange(
                lo + 1 as int,
                hi as int,
            ));
        }
        lo = lo + 1;
    }
    while lo < hi && (s[hi - 1] == 32u8 || s[hi - 1] == 9u8 || s[hi - 1] == 13u8 || s[hi - 1]
        == 10u8)
        invariant
            lo <= hi <= s@.len(),
            trim_bytes(s@) == trim_bytes(s@.subrange(lo as int, hi as int)),
            lo < hi ==> !is_ascii_ws(s@[lo as int]),
        decreases hi - lo,
    {
        proof {
            assert(s@.subrange(lo as int, hi as int).drop_last() =~= s@.subrange(
                lo as int,
                hi - 1 as int,
            ));
        }
        hi = hi - 1;
    }
    &s[lo..hi]
}

/// The views of a batch of fragments.
pub open spec fn views_of(frags: Seq<String>) -> Seq<Seq<char>> {
    frags.map_values(|s: String| s@)
}

/// The fragment of one complete line, exactly as the spec model yields it.
fn line_fragment(line: &Vec<u8>) -> (r: Option<String>)
    ensures
        r is Some <==> spec_line_fragment(line@) is Some,
        r matches Some(f) ==> spec_line_fragment(line@) == Some(f@),
{
    // the six bytes of `data: `
    let has_prefix = line.len() >= 6 && line[0] == 100u8 && line[1] == 97u8 && line[2] == 116u8
        && line[3] == 97u8 && line[4] == 58u8 && line[5] == 32u8;
    proof {
        assert(has_prefix <==> starts_with(line@, spec_data_prefix())) by {
            if has_prefix {
                assert(line@.subrange(0, 6) =~= spec_data_prefix());
            }
            if starts_with(line@, spec_data_prefix()) {
                assert(line@[0] == line@.subrange(0, 6)[0]);
                assert(line@[1] == line@.subrange(0, 6)[1]);
                assert(line@[2] == line@.subrange(0, 6)[2]);
                assert(line@[3] == line@.subrange(0, 6)[3]);
                assert(line@[4] == line@.subrange(0, 6)[4]);
                assert(line@[5] == line@.subrange(0, 6)[5]);
            }
        }
    }
    if !has_prefix {
        return None;
    }
    let tail = line.as_slice();
    let payload = trim_ascii(&tail[6..tail.len()]);
    proof {
        assert(line@.subrange(6, line@.len() as int) =~= line@.skip(6));
    }
    // the six bytes of `[DONE]`
    let is_done = payload.len() == 6 && payload[0] == 91u8 && payload[1] == 68u8 && payload[2]
        == 79u8 && payload[3] == 78u8 && payload[4] == 69u8 && payload[5] == 93u8;
    proof {
        assert(is_done <==> payload@ == spec_done_sentinel()) by {
            if is_done {
                assert(payload@ =~= spec_done_sentinel());
            }
            if payload@ == spec_done_sentinel() {
                assert(payload@[0] == 91u8 && payload@[1] == 68u8 && payload@[2] == 79u8
                    && payload@[3] == 78u8 && payload@[4] == 69u8 && payload@[5] == 93u8);
            }
        }
    }
    if is_done {
        return None;
    }
    parse_frame(payload)
}

/// The incremental stream decoder. It holds the pending partial line — the
/// bytes received since the last newline — so a frame split across any
/// number of transport chunks is re-assembled before it is interpreted.
pub struct SseDecoder {
    line: Vec<u8>,
}

impl SseDecoder {
    /// The pending partial line.
    pub closed spec fn pending(&self) -> Seq<u8> {
        self.line@
    }

    /// A fresh decoder with nothing pending.
    pub fn new() -> (d: Self)
        ensures
            d.pending() == Seq::<u8>::empty(),
    {
        SseDecoder { line: Vec::new() }
    }

    /// Feeds one transport chunk and returns the fragments of the complete
    /// lines it finishes, in arrival order; the trailing incomplete line is
    /// kept pending for the next chunk.
    pub fn push_chunk(&mut self, chunk: &[u8]) -> (frags: Vec<String>)
        ensures
            views_of(frags@) == spec_decode(old(self).pending(), chunk@).0,
            final(self).pending() == spec_decode(old(self).pending(), chunk@).1,
    {
        let mut frags: Vec<String> = Vec::new();
        let mut i: usize = 0;
        proof {
            assert(chunk@.skip(0) =~= chunk@);
        }
        while i < chunk.len()
            invariant
                i <= chunk@.len(),
                views_of(frags@) + spec_decode(self.line@, chunk@.skip(i as int)).0
                    =~= spec_decode(old(self).pending(), chunk@).0,
                spec_decode(self.line@, chunk@.skip(i as int)).1 == spec_decode(
                    old(self).pending(),
                    chunk@,
                ).1,
            decreases chunk@.len() - i,
        {
            let ghost prev_line = self.line@;
            let ghost prev_frags = frags@;
            let b = chunk[i];
            proof {
                assert(chunk@.skip(i as int).first() == chunk@[i as int]);
                assert(chunk@.skip(i as int).drop_first() =~= chunk@.skip(i + 1 as int));
            }
            if b == 10u8 {
                match line_fragment(&self.line) {
                    Some(f) => {
                        frags.push(f);
                        proof {
                            assert(views_of(frags@) =~= views_of(prev_frags) + frag_seq(
                                spec_line_fragment(prev_line),
                            ));
                        }
                    },
                    None => {
                        proof {
                            assert(views_of(frags@) =~= views_of(prev_frags) + frag_seq(
                                spec_line_fragment(prev_line),
                            ));
                        }
                    },
                }
                self.line.clear();
            } else {
                self.line.push(b);
            }
            i = i + 1;
        }
        proof {
            assert(chunk@.skip(chunk@.len() as int) =~= Seq::<u8>::empty());
            assert(views_of(frags@) + Seq::<Seq<char>>::empty() =~= views_of(frags@));
        }
        frags
    }
}

/// Law: a transport chunk boundary cannot lose, duplicate or reorder
/// content. Wherever a byte stream is cut in two, feeding the pieces one
/// after the other yields exactly the fragments of feeding the whole, in
/// the same order, and leaves the same pending line.
pub proof fn lemma_decode_chunk_split(line: Seq<u8>, a: Seq<u8>, b: Seq<u8>)
    ensures
        spec_decode(line, a).0 + spec_decode(spec_decode(line, a).1, b).0 == spec_decode(
            line,
            a + b,
        ).0,
        spec_decode(spec_decode(line, a).1, b).1 == spec_decode(line, a + b).1,
    decreases a.len(),
{
    if a.len() == 0 {
        assert(a + b =~= b);
        assert(spec_decode(line, a).0 + spec_decode(line, b).0 =~= spec_decode(line, b).0);
    } else {
        assert((a + b).first() == a.first());
        assert((a + b).drop_first() =~= a.drop_first() + b);
        if a.first() == nl() {
            lemma_decode_chunk_split(Seq::empty(), a.drop_first(), b);
            let head = frag_seq(spec_line_fragment(line));
            let mid = spec_decode(Seq::empty(), a.drop_first());
            let tail = spec_decode(mid.1, b);
            assert((head + mid.0) + tail.0 =~= head + (mid.0 + tail.0));
        } else {
            lemma_decode_chunk_split(line.push(a.first()), a.drop_first(), b);
        }
    }
}

/// The content deltas of the frame lines, in frame order.
pub open spec fn spec_frame_contents(lines: Seq<Seq<u8>>) -> Seq<Seq<char>>
    decreases lines.len(),
{
    if lines.len() == 0 {
        Seq::empty()
    } else {
        frag_seq(spec_line_fragment(lines.first())) + spec_frame_contents(lines.drop_first())
    }
}

/// The frame lines joined into one byte stream, each line terminated by a
/// newline.
pub open spec fn spec_join_lines(lines: Seq<Seq<u8>>) -> Seq<u8>
    decreases lines.len(),
{
    if lines.len() == 0 {
        Seq::empty()
    } else {
        lines.first() + seq![nl()] + spec_join_lines(lines.drop_first())
    }
}

/// Bytes without a newline only grow the pending line and yield nothing.
proof fn lemma_decode_no_newline(line: Seq<u8>, s: Seq<u8>)
    requires
        forall|j: int| 0 <= j < s.len() ==> s[j] != nl(),
    ensures
        spec_decode(line, s).0 == Seq::<Seq<char>>::empty(),
        spec_decode(line, s).1 == line + s,
    decreases s.len(),
{
    if s.len() == 0 {
        assert(line + s =~= line);
    } else {
        lemma_decode_no_newline(line.push(s.first()), s.drop_first());
        assert(line.push(s.first()) + s.drop_first() =~= line + s);
    }
}

/// Law: decoding a well-formed stream — every frame line complete,
/// newline-terminated and free of interior newlines — yields exactly the
/// frames' content deltas, in frame order, and leaves nothing pending.
/// Concatenating the fragments therefore reconstructs the concatenation of
/// every content delta across the stream.
pub proof fn lemma_decode_stream(lines: Seq<Seq<u8>>)
    requires
        forall|i: int, j: int|
            0 <= i < lines.len() && 0 <= j < lines[i].len() ==> #[trigger] lines[i][j] != nl(),
    ensures
        spec_decode(Seq::empty(), spec_join_lines(lines)).0 == spec_frame_contents(lines),
        spec_decode(Seq::empty(), spec_join_lines(lines)).1 == Seq::<u8>::empty(),
    decreases lines.len(),
{
    if lines.len() > 0 {
        let l0 = lines.first();
        let rest = spec_join_lines(lines.drop_first());
        assert(spec_join_lines(lines) =~= l0 + (seq![nl()] + rest));
        assert forall|j: int| 0 <= j < l0.len() implies l0[j] != nl() by {
            assert(lines[0][j] != nl());
        }
        lemma_decode_no_newline(Seq::empty(), l0);
        assert(Seq::<u8>::empty() + l0 =~= l0);
        lemma_decode_chunk_split(Seq::empty(), l0, seq![nl()] + rest);
        assert((seq![nl()] + rest).first() == nl());
        assert((seq![nl()] + rest).drop_first() =~= rest);
        assert forall|i: int, j: int|
            0 <= i < lines.drop_first().len() && 0 <= j < lines.drop_first()[i].len() implies #[trigger] lines.drop_first()[i][j]
            != nl() by {
            assert(lines.drop_first()[i] == lines[i + 1]);
            assert(lines[i + 1][j] != nl());
        }
        lemma_decode_stream(lines.drop_first());
        let head = frag_seq(spec_line_fragment(l0));
        let tail = spec_frame_contents(lines.drop_first());
        assert(Seq::<Seq<char>>::empty() + (head + tail) =~= head + tail);
    }
}

} // verus!
