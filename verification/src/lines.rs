//! Decoding of a raw log byte stream into text lines.
//!
//! Chunks arrive in order but with arbitrary sizes, so a line may be cut
//! anywhere. The decoder keeps the tail after the last line feed of each
//! chunk as a carry-over and prefixes it to the next chunk's text; the lines
//! it emits therefore depend only on the concatenated stream, never on where
//! the chunk boundaries fall. At stream end the carry-over is yielded once,
//! as a final line without a trailing delimiter, even when it is empty.
//!
//! Each chunk is decoded as UTF-8 on its own: a chunk boundary that splits a
//! multi-byte character fails the whole stream with an encoding error. That
//! failure is terminal for the stream; the consumer stops feeding and the
//! carry-over is not yielded.

use vstd::prelude::*;
use vstd::utf8::{valid_utf8, decode_utf8};
use crate::ApiError;
use crate::text::{chars_of, string_of_chars};

verus! {

/// The segments of `s` around its line feeds, in order: one more segment
/// than there are line feeds, so the first segment is what stands before the
/// first line feed and the last is what follows the last one (either may be
/// empty, and a stream without line feeds is one segment).
pub open spec fn split_lines(s: Seq<char>) -> Seq<Seq<char>>
    decreases s.len(),
{
    if s.len() == 0 {
        seq![Seq::<char>::empty()]
    } else {
        let rest = split_lines(s.drop_last());
        if s.last() == '\n' {
            rest.push(Seq::<char>::empty())
        } else {
            rest.update(rest.len() - 1, rest.last().push(s.last()))
        }
    }
}

/// A split always yields at least one segment.
pub proof fn lemma_split_lines_len(s: Seq<char>)
    ensures
        split_lines(s).len() >= 1,
    decreases s.len(),
{
    if s.len() > 0 {
        lemma_split_lines_len(s.drop_last());
    }
}

/// Law: a cut anywhere in a stream only glues the left part's carry-over to
/// the right part's first segment; every other line is a line of one part
/// alone. So decoding a stream in chunks, carrying the partial line across
/// each boundary, emits exactly the lines of the concatenated stream.
pub proof fn lemma_split_lines_append(a: Seq<char>, b: Seq<char>)
    ensures
        split_lines(a + b) == split_lines(a).drop_last() + seq![
            split_lines(a).last() + split_lines(b).first(),
        ] + split_lines(b).drop_first(),
    decreases b.len(),
{
    lemma_split_lines_len(a);
    lemma_split_lines_len(b);
    let sa = split_lines(a);
    let sb = split_lines(b);
    if b.len() == 0 {
        assert(a + b =~= a);
        assert(sb == seq![Seq::<char>::empty()]);
        assert(sa.last() + sb.first() =~= sa.last());
        assert(sa.drop_last() + seq![sa.last() + sb.first()] + sb.drop_first() =~~= sa);
    } else {
        let b0 = b.drop_last();
        let c = b.last();
        lemma_split_lines_append(a, b0);
        lemma_split_lines_len(b0);
        let s0 = split_lines(b0);
        let prev = split_lines(a + b0);
        assert((a + b).drop_last() =~= a + b0);
        assert((a + b).last() == c);
        if c == '\n' {
            assert(split_lines(a + b) == prev.push(Seq::<char>::empty()));
            assert(sb == s0.push(Seq::<char>::empty()));
            assert(sb.first() == s0.first());
            assert(sb.drop_first() =~~= s0.drop_first().push(Seq::<char>::empty()));
            assert(split_lines(a + b) =~~= sa.drop_last() + seq![sa.last() + sb.first()]
                + sb.drop_first());
        } else {
            assert(split_lines(a + b) == prev.update(prev.len() - 1, prev.last().push(c)));
            assert(sb == s0.update(s0.len() - 1, s0.last().push(c)));
            if s0.len() == 1 {
                assert(prev.last() =~~= sa.last() + s0.first());
                assert(sb.first() == s0.first().push(c));
                assert(sb.drop_first() =~~= Seq::<Seq<char>>::empty());
                assert((sa.last() + s0.first()).push(c) =~= sa.last() + s0.first().push(c));
                assert(split_lines(a + b) =~~= sa.drop_last() + seq![sa.last() + sb.first()]
                    + sb.drop_first());
            } else {
                let r = s0.drop_first();
                assert(prev.last() == r.last());
                assert(sb.first() == s0.first());
                assert(sb.drop_first() =~~= r.update(r.len() - 1, r.last().push(c)));
                assert(split_lines(a + b) =~~= sa.drop_last() + seq![sa.last() + sb.first()]
                    + sb.drop_first());
            }
        }
    }
}

/// Relies on std's `str::from_utf8`: it accepts exactly the valid UTF-8 byte
/// sequences and decodes them to their characters.
#[verifier::external_body]
fn utf8_to_string(bytes: &[u8]) -> (r: Option<String>)
    ensures
        match r {
            Option::Some(s) => valid_utf8(bytes@) && s@ == decode_utf8(bytes@),
            Option::None => !valid_utf8(bytes@),
        },
{
    match core::str::from_utf8(bytes) {
        Ok(s) => Some(String::from(s)),
        Err(_) => None,
    }
}

/// The pull-driven line decoder: feed it byte chunks as they arrive, collect
/// the complete lines each chunk releases, and take the final carry-over
/// once the stream ends.
pub struct LineDecoder {
    pending: Vec<char>,
    consumed: Ghost<Seq<char>>,
    emitted: Ghost<Seq<Seq<char>>>,
}

impl LineDecoder {
    /// All characters decoded so far, across every chunk fed.
    pub closed spec fn consumed(self) -> Seq<char> {
        self.consumed@
    }

    /// The lines already handed out, in order.
    pub closed spec fn emitted(self) -> Seq<Seq<char>> {
        self.emitted@
    }

    /// The carry-over: characters after the last line feed seen.
    pub closed spec fn pending_line(self) -> Seq<char> {
        self.pending@
    }

    /// The emitted lines followed by the carry-over are exactly the segments
    /// of the consumed stream: what comes out never depends on how the
    /// stream was cut into chunks.
    pub open spec fn wf(self) -> bool {
        self.emitted().push(self.pending_line()) == split_lines(self.consumed())
    }

    /// A fresh decoder that has consumed nothing.
    pub fn new() -> (d: Self)
        ensures
            d.wf(),
            d.consumed() == Seq::<char>::empty(),
            d.emitted() == Seq::<Seq<char>>::empty(),
    {
        let d = LineDecoder {
            pending: Vec::new(),
            consumed: Ghost(Seq::empty()),
            emitted: Ghost(Seq::empty()),
        };
        proof {
            assert(d.emitted().push(d.pending_line()) =~= split_lines(d.consumed()));
        }
        d
    }

    /// Decodes one chunk and hands out the lines it completes.
    ///
    /// On a chunk that is not valid UTF-8 the decoder is unchanged and the
    /// stream has failed with an encoding error; it is not corrected by
    /// buffering bytes across the boundary, so a multi-byte character cut in
    /// two by a chunk boundary fails even when the stream as a whole would
    /// decode.
    pub fn feed(&mut self, chunk: &[u8]) -> (r: Result<Vec<String>, ApiError>)
        requires
            old(self).wf(),
        ensures
            final(self).wf(),
            match r {
                Result::Ok(lines) => valid_utf8(chunk@) && final(self).consumed() == old(
                    self,
                ).consumed() + decode_utf8(chunk@) && final(self).emitted() == old(
                    self,
                ).emitted() + lines.deep_view(),
                Result::Err(e) => e == ApiError::Encoding && !valid_utf8(chunk@) && *final(self)
                    == *old(self),
            },
    {
        let s = match utf8_to_string(chunk) {
            Option::Some(s) => s,
            Option::None => {
                return Result::Err(ApiError::Encoding);
            },
        };
        let cs = chars_of(s.as_str());
        let ghost base_consumed = self.consumed@;
        let ghost base_emitted = self.emitted@;
        let mut lines: Vec<String> = Vec::new();
        let mut i: usize = 0;
        proof {
            assert(self.consumed@ =~= base_consumed + cs@.take(0));
            assert(self.emitted@ =~= base_emitted + lines.deep_view());
        }
        while i < cs.len()
            invariant
                i <= cs@.len(),
                self.wf(),
                self.consumed@ == base_consumed + cs@.take(i as int),
                self.emitted@ == base_emitted + lines.deep_view(),
            decreases cs@.len() - i,
        {
            let c = cs[i];
            let ghost pre = *self;
            if c == '\n' {
                let line = string_of_chars(self.pending.as_slice());
                self.pending.clear();
                let ghost lines_pre = lines.deep_view();
                lines.push(line);
                proof {
                    self.emitted@ = pre.emitted@.push(pre.pending@);
                    self.consumed@ = pre.consumed@.push(c);
                    assert(pre.consumed@.push(c).drop_last() =~= pre.consumed@);
                    assert(split_lines(self.consumed@) == split_lines(pre.consumed@).push(
                        Seq::<char>::empty(),
                    ));
                    assert(self.emitted@.push(self.pending@) =~~= split_lines(self.consumed@));
                    assert(lines.deep_view() =~~= lines_pre.push(line@));
                    assert(self.emitted@ =~~= base_emitted + lines.deep_view());
                }
            } else {
                self.pending.push(c);
                proof {
                    self.consumed@ = pre.consumed@.push(c);
                    assert(pre.consumed@.push(c).drop_last() =~= pre.consumed@);
                    let prev = split_lines(pre.consumed@);
                    assert(split_lines(self.consumed@) == prev.update(
                        prev.len() - 1,
                        prev.last().push(c),
                    ));
                    assert(prev.last() == pre.pending@);
                    assert(self.emitted@.push(self.pending@) =~~= split_lines(self.consumed@));
                }
            }
            i = i + 1;
            proof {
                assert(self.consumed@ =~= base_consumed + cs@.take(i as int));
            }
        }
        proof {
            assert(cs@.take(cs@.len() as int) =~= cs@);
        }
        Result::Ok(lines)
    }

    /// Ends the stream: yields the carry-over as the final line, the one
    /// line of the stream that needs no trailing delimiter.
    pub fn finish(self) -> (line: String)
        requires
            self.wf(),
        ensures
            line@ == self.pending_line(),
            self.emitted().push(line@) == split_lines(self.consumed()),
    {
        string_of_chars(self.pending.as_slice())
    }
}

} // verus!
