//! Sixteen-bit words on an eight-bit bus: their big-endian encoding, and
//! finite runs of them that are produced one word at a time.

use vstd::prelude::*;

verus! {

/// The more significant byte of `word`.
pub open spec fn high_byte(word: u16) -> u8 {
    (word / 256) as u8
}

/// The less significant byte of `word`.
pub open spec fn low_byte(word: u16) -> u8 {
    (word % 256) as u8
}

/// The two bytes of `word`, the more significant one first.
pub fn split(word: u16) -> (bytes: (u8, u8))
    ensures
        bytes.0 == high_byte(word),
        bytes.1 == low_byte(word),
        word == bytes.0 * 256 + bytes.1,
{
    assert((word >> 8) == word / 256 && (word >> 8) < 256) by (bit_vector);
    assert((word & 0xff) == word % 256 && (word & 0xff) < 256) by (bit_vector);
    ((word >> 8) as u8, (word & 0xff) as u8)
}

/// The bytes that carry `words` over the bus: two for each word, the more
/// significant one first.
pub open spec fn big_endian(words: Seq<u16>) -> Seq<u8> {
    Seq::new(
        2 * words.len(),
        |i: int|
            if i % 2 == 0 {
                high_byte(words[i / 2])
            } else {
                low_byte(words[i / 2])
            },
    )
}

/// `count` copies of `word`.
pub open spec fn repeated(word: u16, count: nat) -> Seq<u16> {
    Seq::new(count, |i: int| word)
}

/// Two runs of words, one after the other, travel as the bytes of the one
/// followed by the bytes of the other.
pub proof fn big_endian_concat(front: Seq<u16>, back: Seq<u16>)
    ensures
        big_endian(front + back) == big_endian(front) + big_endian(back),
{
}

/// A pair of words travels as four bytes.
pub proof fn big_endian_pair(first: u16, second: u16)
    ensures
        big_endian(seq![first, second]) == seq![
            high_byte(first),
            low_byte(first),
            high_byte(second),
            low_byte(second),
        ],
{
}

/// A single word travels as two bytes.
pub proof fn big_endian_single(word: u16)
    ensures
        big_endian(seq![word]) == seq![high_byte(word), low_byte(word)],
{
}

/// A run of one word travels as that word's two bytes, over and over.
pub proof fn big_endian_repeated(word: u16, count: nat)
    ensures
        big_endian(repeated(word, count)).len() == 2 * count,
        forall|k: int|
            0 <= k < count ==> #[trigger] big_endian(repeated(word, count))[2 * k] == high_byte(
                word,
            ),
        forall|k: int|
            0 <= k < count ==> #[trigger] big_endian(repeated(word, count))[2 * k + 1]
                == low_byte(word),
{
}

enum Source<'a> {
    Slice { words: &'a [u16], next: usize },
    Repeat { word: u16, left: usize },
}

/// A finite run of sixteen-bit words that is handed out once, front to back.
///
/// A run never holds its words in a buffer of its own: it either reads them
/// from a slice of the caller's or repeats one word, so a transfer of any
/// length costs constant memory.
pub struct Words<'a> {
    source: Source<'a>,
}

impl<'a> Words<'a> {
    /// The words that have not been handed out yet, next one first.
    pub closed spec fn view(&self) -> Seq<u16> {
        match self.source {
            Source::Slice { words, next } => if next <= words@.len() {
                words@.skip(next as int)
            } else {
                Seq::empty()
            },
            Source::Repeat { word, left } => repeated(word, left as nat),
        }
    }

    /// The words of `words`, in order.
    pub fn from_slice(words: &'a [u16]) -> (run: Self)
        ensures
            run@ == words@,
    {
        Words { source: Source::Slice { words, next: 0 } }
    }

    /// `count` copies of `word`.
    pub fn repeat(word: u16, count: usize) -> (run: Self)
        ensures
            run@ == repeated(word, count as nat),
    {
        Words { source: Source::Repeat { word, left: count } }
    }

    /// Hands out the next word, or `None` once the run is exhausted.
    pub fn next(&mut self) -> (word: Option<u16>)
        ensures
            match word {
                Some(w) => old(self)@.len() > 0 && w == old(self)@[0] && final(self)@ == old(
                    self,
                )@.skip(1),
                None => old(self)@.len() == 0 && final(self)@.len() == 0,
            },
    {
        match &mut self.source {
            Source::Slice { words, next } => {
                if *next < words.len() {
                    let w = words[*next];
                    *next = *next + 1;
                    Some(w)
                } else {
                    None
                }
            },
            Source::Repeat { word, left } => {
                if *left > 0 {
                    *left = *left - 1;
                    Some(*word)
                } else {
                    None
                }
            },
        }
    }
}

} // verus!
