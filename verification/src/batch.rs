//! The batch pipeline's line handling: cleaning input lines and gathering
//! them into bounded chunks.
//!
//! Lines are trimmed; blank lines and comment lines (first character `#`)
//! are discarded. The survivors accumulate in a `ChunkBuffer` that hands
//! out a full chunk as soon as `chunk_size` domains are waiting, and the
//! final partial chunk on `finish`. The chunker theorem below states that
//! nothing is lost and nothing is invented: the chunks emitted, in order,
//! hold exactly the qualifying lines.

use vstd::prelude::*;

use crate::text::{chars_of, spec_trim, string_of_chars, trim_chars};

verus! {

/// A cleaned line enters the pipeline: non-empty and not a comment.
pub open spec fn spec_qualifies(t: Seq<char>) -> bool {
    t.len() > 0 && t[0] != '#'
}

/// The qualifying lines of an input, each trimmed, in input order.
pub open spec fn spec_clean_lines(lines: Seq<Seq<char>>) -> Seq<Seq<char>>
    decreases lines.len(),
{
    if lines.len() == 0 {
        Seq::empty()
    } else {
        let t = spec_trim(lines.first());
        (if spec_qualifies(t) {
            seq![t]
        } else {
            Seq::empty()
        }) + spec_clean_lines(lines.drop_first())
    }
}

/// What one line does to the buffer: a non-qualifying line changes
/// nothing; a qualifying one joins the pending chunk, which is emitted
/// and cleared as soon as it reaches `chunk_size` entries.
pub open spec fn spec_buffer_step(
    pending: Seq<Seq<char>>,
    chunk_size: int,
    line: Seq<char>,
) -> (Seq<Seq<char>>, Option<Seq<Seq<char>>>) {
    let t = spec_trim(line);
    if !spec_qualifies(t) {
        (pending, None)
    } else {
        let grown = pending.push(t);
        if grown.len() >= chunk_size {
            (Seq::empty(), Some(grown))
        } else {
            (grown, None)
        }
    }
}

/// The buffer and the chunks emitted after feeding a whole line sequence,
/// first line first.
pub open spec fn spec_buffer_run(
    pending: Seq<Seq<char>>,
    chunk_size: int,
    lines: Seq<Seq<char>>,
) -> (Seq<Seq<char>>, Seq<Seq<Seq<char>>>)
    decreases lines.len(),
{
    if lines.len() == 0 {
        (pending, Seq::empty())
    } else {
        let stepped = spec_buffer_step(pending, chunk_size, lines.first());
        let rest = spec_buffer_run(stepped.0, chunk_size, lines.drop_first());
        (
            rest.0,
            (match stepped.1 {
                Some(c) => seq![c] + rest.1,
                None => rest.1,
            }),
        )
    }
}

/// The chunks laid end to end.
pub open spec fn spec_concat_chunks(chunks: Seq<Seq<Seq<char>>>) -> Seq<Seq<char>>
    decreases chunks.len(),
{
    if chunks.len() == 0 {
        Seq::empty()
    } else {
        chunks.first() + spec_concat_chunks(chunks.drop_first())
    }
}

/// Batch completeness: feeding any line sequence to the buffer dispatches
/// every qualifying line exactly once and nothing else — the emitted
/// chunks laid end to end, followed by what is still pending, are the
/// trimmed qualifying lines in input order. Every emitted chunk is
/// non-empty.
pub proof fn lemma_chunker_complete(
    pending: Seq<Seq<char>>,
    chunk_size: int,
    lines: Seq<Seq<char>>,
)
    ensures
        ({
            let run = spec_buffer_run(pending, chunk_size, lines);
            &&& spec_concat_chunks(run.1) + run.0 =~= pending + spec_clean_lines(lines)
            &&& forall|ci: int| 0 <= ci < run.1.len() ==> #[trigger] run.1[ci].len() >= 1
        }),
    decreases lines.len(),
{
    if lines.len() == 0 {
        assert(spec_concat_chunks(Seq::empty()) + pending =~= pending + spec_clean_lines(lines));
    } else {
        let stepped = spec_buffer_step(pending, chunk_size, lines.first());
        lemma_chunker_complete(stepped.0, chunk_size, lines.drop_first());
        let rest = spec_buffer_run(stepped.0, chunk_size, lines.drop_first());
        let t = spec_trim(lines.first());
        match stepped.1 {
            Some(c) => {
                assert(spec_concat_chunks(seq![c] + rest.1) =~= c + spec_concat_chunks(rest.1))
                    by {
                    assert((seq![c] + rest.1).first() == c);
                    assert((seq![c] + rest.1).drop_first() =~= rest.1);
                }
                assert(spec_concat_chunks((seq![c] + rest.1)) + rest.0 =~= pending
                    + spec_clean_lines(lines));
            },
            None => {
                assert(spec_concat_chunks(rest.1) + rest.0 =~= pending + spec_clean_lines(lines));
            },
        }
    }
}

/// Empty input: when no line qualifies, a run from an empty buffer emits
/// no chunk and leaves nothing pending — the batch completes having
/// written zero results, and that is not an error.
pub proof fn lemma_empty_input_no_output(chunk_size: int, lines: Seq<Seq<char>>)
    requires
        spec_clean_lines(lines) =~= Seq::<Seq<char>>::empty(),
    ensures
        ({
            let run = spec_buffer_run(Seq::empty(), chunk_size, lines);
            run.1 =~= Seq::<Seq<Seq<char>>>::empty() && run.0 =~= Seq::<Seq<char>>::empty()
        }),
{
    lemma_chunker_complete(Seq::empty(), chunk_size, lines);
    let run = spec_buffer_run(Seq::<Seq<char>>::empty(), chunk_size, lines);
    assert(spec_concat_chunks(run.1) + run.0 =~= Seq::<Seq<char>>::empty());
    if run.1.len() > 0 {
        assert(run.1[0].len() >= 1);
        assert(spec_concat_chunks(run.1).len() >= run.1.first().len()) by {
            assert(spec_concat_chunks(run.1) =~= run.1.first() + spec_concat_chunks(
                run.1.drop_first(),
            ));
        }
        assert(false);
    }
}

/// Gathers cleaned lines into chunks of `chunk_size`.
pub struct ChunkBuffer {
    /// How many domains one dispatched chunk holds.
    pub chunk_size: usize,
    /// Cleaned lines waiting for the chunk to fill.
    pub pending: Vec<String>,
}

impl ChunkBuffer {
    /// An empty buffer for chunks of `chunk_size`.
    pub fn new(chunk_size: usize) -> (b: ChunkBuffer)
        ensures
            b.chunk_size == chunk_size,
            b.pending.deep_view() =~= Seq::<Seq<char>>::empty(),
    {
        ChunkBuffer { chunk_size, pending: Vec::new() }
    }

    /// Feeds one raw input line; hands back a full chunk when this line
    /// completes one. Follows `spec_buffer_step` exactly.
    pub fn push_line(&mut self, line: &str) -> (r: Option<Vec<String>>)
        ensures
            ({
                let stepped = spec_buffer_step(
                    old(self).pending.deep_view(),
                    old(self).chunk_size as int,
                    line@,
                );
                &&& final(self).pending.deep_view() == stepped.0
                &&& r.deep_view() == stepped.1
                &&& final(self).chunk_size == old(self).chunk_size
            }),
    {
        let cs = chars_of(line);
        let t = trim_chars(&cs);
        if t.len() == 0 {
            return None;
        }
        if t[0] == '#' {
            return None;
        }
        let domain = string_of_chars(&t);
        let ghost before = self.pending.deep_view();
        self.pending.push(domain);
        proof {
            assert(self.pending.deep_view() =~= before.push(spec_trim(line@)));
        }
        if self.pending.len() >= self.chunk_size {
            let mut chunk: Vec<String> = Vec::new();
            core::mem::swap(&mut chunk, &mut self.pending);
            proof {
                assert(self.pending.deep_view() =~= Seq::<Seq<char>>::empty());
                assert(Some(chunk).deep_view() =~~= spec_buffer_step(
                    old(self).pending.deep_view(),
                    old(self).chunk_size as int,
                    line@,
                ).1);
            }
            Some(chunk)
        } else {
            None
        }
    }

    /// Takes the final partial chunk once input is exhausted: the pending
    /// lines when any are waiting, nothing otherwise. The buffer is empty
    /// afterwards.
    pub fn finish(&mut self) -> (r: Option<Vec<String>>)
        ensures
            (match r {
                Some(chunk) => old(self).pending.deep_view().len() > 0 && chunk.deep_view()
                    == old(self).pending.deep_view(),
                None => old(self).pending.deep_view().len() == 0,
            }),
            final(self).pending.deep_view() =~= Seq::<Seq<char>>::empty(),
            final(self).chunk_size == old(self).chunk_size,
    {
        if self.pending.len() == 0 {
            proof {
                assert(self.pending.deep_view() =~= Seq::<Seq<char>>::empty());
            }
            return None;
        }
        let mut chunk: Vec<String> = Vec::new();
        core::mem::swap(&mut chunk, &mut self.pending);
        proof {
            assert(self.pending.deep_view() =~= Seq::<Seq<char>>::empty());
        }
        Some(chunk)
    }
}

} // verus!
