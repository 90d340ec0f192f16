//! The noise text: random numbers, written in binary, one on each line.

use crate::text::{digits, to_binary};
use rand::Rng;
use vstd::prelude::*;

verus! {

/// The number of lines of noise in a frame.
pub const NOISE_LINES: usize = 100;

/// Draws one `u64` with `rand::Rng::gen` from the generator that
/// `rand::thread_rng` returns, which the system seeds. The result depends on
/// chance, so the contract claims nothing of it.
#[verifier::external_body]
fn random_word() -> (word: u64) {
    rand::thread_rng().gen()
}

/// A fresh batch of `count` random numbers.
pub fn noise_words(count: usize) -> (words: Vec<u64>)
    ensures
        words@.len() == count,
{
    let mut words: Vec<u64> = Vec::new();
    let mut i: usize = 0;
    while i < count
        invariant
            i <= count,
            words@.len() == i,
        decreases count - i,
    {
        words.push(random_word());
        i = i + 1;
    }
    words
}

/// The lines of the noise text for the given numbers: each number in binary.
pub open spec fn noise_text(words: Seq<u64>) -> Seq<Seq<char>> {
    Seq::new(words.len(), |i: int| digits(words[i] as nat, 2))
}

/// Writes each number in binary, in the order given.
pub fn noise_lines(words: &Vec<u64>) -> (lines: Vec<String>)
    ensures
        lines.deep_view() == noise_text(words@),
{
    let mut lines: Vec<String> = Vec::new();
    let mut i: usize = 0;
    while i < words.len()
        invariant
            i <= words@.len(),
            lines@.len() == i,
            forall|j: int| 0 <= j < i ==> (#[trigger] lines@[j])@ == digits(words@[j] as nat, 2),
        decreases words@.len() - i,
    {
        lines.push(to_binary(words[i]));
        i = i + 1;
    }
    assert(lines.deep_view() =~= noise_text(words@));
    lines
}

} // verus!
