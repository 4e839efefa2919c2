//! Answers to prompts: one complete line of input for each.

use vstd::prelude::*;

verus! {

/// The newline that ends an answer.
pub const NEWLINE: u8 = 10;

/// The byte that an answer to quit starts with: `q`.
pub const QUIT: u8 = 113;

/// What to do with the bytes at hand while a prompt is being answered.
#[derive(Clone, Copy, Debug, PartialEq, Eq, Structural)]
pub enum PromptStep {
    /// The answer goes on: drop `consumed` bytes and read more.
    More { consumed: usize },
    /// The answer is complete: drop `consumed` bytes and leave the rest for the next prompt.
    Done { consumed: usize, quit: bool },
    /// Nothing was read: drop nothing and read again.
    Again,
    /// The answer cannot be read: drop nothing and give up.
    Fail,
}

/// The length of the first line, its newline included, if there is a newline.
pub open spec fn line_len(s: Seq<u8>) -> Option<nat>
    decreases s.len(),
{
    if s.len() == 0 {
        None
    } else if s[0] == NEWLINE {
        Some(1)
    } else {
        match line_len(s.drop_first()) {
            Some(n) => Some(n + 1),
            None => None,
        }
    }
}

/// How a whole input answers a prompt: how many bytes of it the answer takes, and whether it is to
/// quit. The answer is the first line, or everything if the input ends without a newline. It is to
/// quit if it starts with `q`, or if the input ends before there is anything.
pub open spec fn answer(input: Seq<u8>) -> (nat, bool) {
    let taken = match line_len(input) {
        Some(n) => n,
        None => input.len(),
    };
    (taken, input.len() == 0 || input[0] == QUIT)
}

/// The first byte of an answer, once `bytes` follow what was read of it before.
pub open spec fn first_byte(first: Option<u8>, bytes: Seq<u8>) -> Option<u8> {
    match first {
        Some(b) => Some(b),
        None => if bytes.len() > 0 {
            Some(bytes[0])
        } else {
            None
        },
    }
}

/// What to do with `bytes` after an answer began with `first`. No bytes at all mean that the input
/// has ended.
pub open spec fn prompt_step(first: Option<u8>, bytes: Seq<u8>) -> PromptStep {
    let seen = first_byte(first, bytes);
    if bytes.len() == 0 {
        PromptStep::Done { consumed: 0, quit: seen is None || seen == Some(QUIT) }
    } else {
        match line_len(bytes) {
            Some(n) => PromptStep::Done { consumed: n as usize, quit: seen == Some(QUIT) },
            None => PromptStep::More { consumed: bytes.len() as usize },
        }
    }
}

/// What to do after a read that failed: one that was only interrupted is tried again.
pub open spec fn failed_step(interrupted: bool) -> PromptStep {
    if interrupted {
        PromptStep::Again
    } else {
        PromptStep::Fail
    }
}

/// What came of a read.
pub enum Reading {
    /// These bytes are at hand.
    Bytes(Seq<u8>),
    /// It was interrupted.
    Interrupted,
    /// It failed for any other reason.
    Error,
}

/// The step after a read.
pub open spec fn reading_step(first: Option<u8>, reading: Reading) -> PromptStep {
    match reading {
        Reading::Bytes(bytes) => prompt_step(first, bytes),
        Reading::Interrupted => failed_step(true),
        Reading::Error => failed_step(false),
    }
}

/// How a row of reads, after which the input ends, answers a prompt: how many bytes are consumed,
/// and whether the answer is to quit; none if it cannot be read.
pub open spec fn answer_reads(first: Option<u8>, reads: Seq<Reading>) -> (nat, Option<bool>)
    decreases reads.len(),
{
    let reading = if reads.len() == 0 {
        Reading::Bytes(Seq::empty())
    } else {
        reads[0]
    };
    match reading_step(first, reading) {
        PromptStep::Done { consumed, quit } => (consumed as nat, Some(quit)),
        PromptStep::Fail => (0, None),
        PromptStep::Again => if reads.len() == 0 {
            (0, None)
        } else {
            answer_reads(first, reads.drop_first())
        },
        PromptStep::More { consumed } => if reads.len() == 0 {
            (0, None)
        } else {
            let seen = first_byte(first, reads[0]->Bytes_0);
            let rest = answer_reads(seen, reads.drop_first());
            (consumed as nat + rest.0, rest.1)
        },
    }
}

/// The reads that were not interrupted.
pub open spec fn uninterrupted(reads: Seq<Reading>) -> Seq<Reading>
    decreases reads.len(),
{
    if reads.len() == 0 {
        Seq::empty()
    } else if reads[0] is Interrupted {
        uninterrupted(reads.drop_first())
    } else {
        seq![reads[0]] + uninterrupted(reads.drop_first())
    }
}

/// Reads that find the given chunks.
pub open spec fn reads_of(chunks: Seq<Seq<u8>>) -> Seq<Reading> {
    Seq::new(chunks.len(), |i: int| Reading::Bytes(chunks[i]))
}

/// The input that a row of chunks makes up.
pub open spec fn joined(chunks: Seq<Seq<u8>>) -> Seq<u8>
    decreases chunks.len(),
{
    if chunks.len() == 0 {
        Seq::empty()
    } else {
        chunks[0] + joined(chunks.drop_first())
    }
}

/// A first line has one newline, at its end; an input without a line has none.
pub proof fn lemma_line_len(s: Seq<u8>)
    ensures
        match line_len(s) {
            Some(n) => 1 <= n <= s.len() && s[n - 1] == NEWLINE && forall|i: int|
                0 <= i < n - 1 ==> #[trigger] s[i] != NEWLINE,
            None => forall|i: int| 0 <= i < s.len() ==> #[trigger] s[i] != NEWLINE,
        },
    decreases s.len(),
{
    if s.len() > 0 && s[0] != NEWLINE {
        let rest = s.drop_first();
        lemma_line_len(rest);
        match line_len(rest) {
            Some(n) => {
                assert forall|i: int| 0 <= i < n implies #[trigger] s[i] != NEWLINE by {
                    if i > 0 {
                        assert(rest[i - 1] == s[i]);
                    }
                }
            },
            None => {
                assert forall|i: int| 0 <= i < s.len() implies #[trigger] s[i] != NEWLINE by {
                    if i > 0 {
                        assert(rest[i - 1] == s[i]);
                    }
                }
            },
        }
    }
}

/// The place of the first newline determines the length of the first line.
proof fn lemma_line_len_at(s: Seq<u8>, n: nat)
    requires
        1 <= n <= s.len(),
        s[n - 1] == NEWLINE,
        forall|i: int| 0 <= i < n - 1 ==> #[trigger] s[i] != NEWLINE,
    ensures
        line_len(s) == Some(n),
{
    lemma_line_len(s);
    match line_len(s) {
        Some(m) => {
            if m < n {
                assert(s[m - 1] != NEWLINE);
            } else if n < m {
                assert(s[n - 1] != NEWLINE);
            }
        },
        None => {},
    }
}

/// The first line of a concatenation is that of the first part, or runs through it.
proof fn lemma_line_len_concat(a: Seq<u8>, b: Seq<u8>)
    ensures
        line_len(a + b) == (match line_len(a) {
            Some(n) => Some(n),
            None => match line_len(b) {
                Some(n) => Some(a.len() + n),
                None => None,
            },
        }),
    decreases a.len(),
{
    if a.len() == 0 {
        assert(a + b =~= b);
    } else {
        assert((a + b).drop_first() =~= a.drop_first() + b);
        lemma_line_len_concat(a.drop_first(), b);
    }
}

/// The answer with its beginning read before: `first` is its first byte, if there was one.
proof fn lemma_answer_chunks(first: Option<u8>, chunks: Seq<Seq<u8>>)
    requires
        forall|i: int| 0 <= i < chunks.len() ==> 0 < #[trigger] chunks[i].len() <= usize::MAX,
    ensures
        answer_reads(first, reads_of(chunks)).0 == answer(joined(chunks)).0,
        answer_reads(first, reads_of(chunks)).1 == Some(
            match first {
                None => answer(joined(chunks)).1,
                Some(b) => b == QUIT,
            },
        ),
    decreases chunks.len(),
{
    if chunks.len() > 0 {
        let rest = chunks.drop_first();
        assert forall|i: int| 0 <= i < rest.len() implies 0 < #[trigger] rest[i].len()
            <= usize::MAX by {
            assert(rest[i] == chunks[i + 1]);
        }
        lemma_line_len(chunks[0]);
        lemma_line_len_concat(chunks[0], joined(rest));
        lemma_answer_chunks(first_byte(first, chunks[0]), rest);
        assert(joined(chunks)[0] == chunks[0][0]);
        assert(reads_of(chunks)[0] == Reading::Bytes(chunks[0]));
        assert(reads_of(chunks).drop_first() =~= reads_of(rest));
    }
}

/// However the input is cut into chunks, the answer is the same: it takes one whole line (or all
/// that is left of the input), and only its first byte decides.
pub proof fn law_answer_ignores_chunks(chunks: Seq<Seq<u8>>)
    requires
        forall|i: int| 0 <= i < chunks.len() ==> 0 < #[trigger] chunks[i].len() <= usize::MAX,
    ensures
        answer_reads(None, reads_of(chunks)) == (
            answer(joined(chunks)).0,
            Some(answer(joined(chunks)).1),
        ),
{
    lemma_answer_chunks(None, chunks);
}

/// An interrupted read is tried again, and changes neither the answer nor what is consumed.
pub proof fn law_interrupted_reads_change_nothing(first: Option<u8>, reads: Seq<Reading>)
    ensures
        answer_reads(first, reads) == answer_reads(first, uninterrupted(reads)),
    decreases reads.len(),
{
    if reads.len() > 0 {
        let rest = reads.drop_first();
        law_interrupted_reads_change_nothing(first, rest);
        if reads[0] !is Interrupted {
            let kept = uninterrupted(reads);
            assert(kept[0] == reads[0]);
            assert(kept.drop_first() =~= uninterrupted(rest));
            match reads[0] {
                Reading::Bytes(bytes) => {
                    law_interrupted_reads_change_nothing(first_byte(first, bytes), rest);
                },
                _ => {},
            }
        }
    }
}

/// The first read that fails for another reason ends the answer, whatever would follow: it cannot
/// be read, and the bytes of the line that were consumed before stay consumed. Only where the line
/// was complete before does the failure not matter.
pub proof fn law_failed_read_ends_the_answer(
    first: Option<u8>,
    chunks: Seq<Seq<u8>>,
    rest: Seq<Reading>,
)
    requires
        forall|i: int| 0 <= i < chunks.len() ==> 0 < #[trigger] chunks[i].len() <= usize::MAX,
    ensures
        answer_reads(first, reads_of(chunks) + seq![Reading::Error] + rest) == (match line_len(
            joined(chunks),
        ) {
            Some(n) => (n, Some(first_byte(first, joined(chunks)) == Some(QUIT))),
            None => (joined(chunks).len(), None::<bool>),
        }),
    decreases chunks.len(),
{
    let reads = reads_of(chunks) + seq![Reading::Error] + rest;
    if chunks.len() == 0 {
        assert(reads[0] is Error);
    } else {
        let tail = chunks.drop_first();
        assert forall|i: int| 0 <= i < tail.len() implies 0 < #[trigger] tail[i].len()
            <= usize::MAX by {
            assert(tail[i] == chunks[i + 1]);
        }
        assert(reads[0] == Reading::Bytes(chunks[0]));
        assert(reads.drop_first() =~= reads_of(tail) + seq![Reading::Error] + rest);
        lemma_line_len(chunks[0]);
        lemma_line_len_concat(chunks[0], joined(tail));
        law_failed_read_ends_the_answer(first_byte(first, chunks[0]), tail, rest);
    }
}

/// An answer takes no byte beyond its line, so one line never answers two prompts: the newline, if
/// there is one, is the last byte taken, and it is the only one.
pub proof fn law_answer_takes_one_line(input: Seq<u8>)
    ensures
        answer(input).0 <= input.len(),
        forall|i: int| 0 <= i < answer(input).0 - 1 ==> #[trigger] input[i] != NEWLINE,
        answer(input).0 < input.len() ==> answer(input).0 >= 1 && input[answer(input).0 - 1]
            == NEWLINE,
{
    lemma_line_len(input);
}

/// Reads on in the answer to a prompt. `first` is its first byte, none before anything was read;
/// `bytes` are those at hand, none if the input has ended.
pub fn read_prompt(first: &mut Option<u8>, bytes: &[u8]) -> (step: PromptStep)
    ensures
        *final(first) == first_byte(*old(first), bytes@),
        step == prompt_step(*old(first), bytes@),
{
    if bytes.len() == 0 {
        let quit = match *first {
            None => true,
            Some(b) => b == QUIT,
        };
        return PromptStep::Done { consumed: 0, quit };
    }
    let b: u8 = match *first {
        None => bytes[0],
        Some(b) => b,
    };
    *first = Some(b);
    let mut i: usize = 0;
    while i < bytes.len()
        invariant
            i <= bytes@.len(),
            bytes@.len() > 0,
            *first == Some(b),
            *first == first_byte(*old(first), bytes@),
            forall|j: int| 0 <= j < i ==> #[trigger] bytes@[j] != NEWLINE,
        decreases bytes.len() - i,
    {
        if bytes[i] == NEWLINE {
            proof {
                lemma_line_len_at(bytes@, (i + 1) as nat);
            }
            return PromptStep::Done { consumed: i + 1, quit: b == QUIT };
        }
        i = i + 1;
    }
    proof {
        lemma_line_len(bytes@);
    }
    PromptStep::More { consumed: bytes.len() }
}

/// Goes on with the answer to a prompt after a read that failed.
pub fn read_prompt_failed(interrupted: bool) -> (step: PromptStep)
    ensures
        step == failed_step(interrupted),
{
    if interrupted {
        PromptStep::Again
    } else {
        PromptStep::Fail
    }
}

/// Only the answer that starts with a lower-case `q` quits, and the end of an input that holds
/// nothing; any other answer goes on. It takes everything up to and with the first newline, or all
/// there is.
pub proof fn law_only_q_or_the_end_quits(input: Seq<u8>)
    ensures
        answer(input).1 <==> input.len() == 0 || input[0] == 113,
        forall|i: int| 0 <= i < answer(input).0 - 1 ==> #[trigger] input[i] != 10,
        answer(input).0 != input.len() ==> 1 <= answer(input).0 < input.len() && input[answer(
            input,
        ).0 - 1] == 10,
{
    lemma_line_len(input);
}

} // verus!
