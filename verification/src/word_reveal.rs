//! Publishing a byte buffer four bytes at a time, and putting it together
//! again.

use crate::error::BenchError;
use crate::little_endian::{le_bytes, le_word, lemma_le_bytes_of_word, word_from_bytes};
use vstd::prelude::*;

verus! {

/// One published word: four bytes of the buffer, least significant first,
/// at the position `index` counted in words.
#[derive(Clone, Copy, Debug, PartialEq, Eq, Structural)]
pub struct RevealedWord {
    pub index: usize,
    pub word: u32,
}

/// How many words hold `len` bytes.
pub open spec fn word_count(len: nat) -> nat {
    (len + 3) / 4
}

/// Byte `k` of the buffer, and zero past its end.
pub open spec fn padded_byte(bytes: Seq<u8>, k: int) -> u8 {
    if 0 <= k < bytes.len() {
        bytes[k]
    } else {
        0
    }
}

/// Word `i` of the buffer: bytes `4 * i` to `4 * i + 3`, the last word
/// filled up with zeros.
pub open spec fn word_at(bytes: Seq<u8>, i: int) -> u32 {
    le_word(
        padded_byte(bytes, 4 * i),
        padded_byte(bytes, 4 * i + 1),
        padded_byte(bytes, 4 * i + 2),
        padded_byte(bytes, 4 * i + 3),
    )
}

/// The words that publish `bytes`, in index order.
pub open spec fn reveal_spec(bytes: Seq<u8>) -> Seq<RevealedWord> {
    Seq::new(word_count(bytes.len()), |i: int| RevealedWord { index: i as usize, word: word_at(bytes, i) })
}

/// Whether the words are all there: every index below their number occurs,
/// and none twice. The order in which they stand does not matter.
pub open spec fn complete(reveals: Seq<RevealedWord>) -> bool {
    &&& forall|i: int| 0 <= i < reveals.len() ==> (#[trigger] reveals[i]).index < reveals.len()
    &&& forall|i: int, j: int|
        0 <= i < j < reveals.len() ==> (#[trigger] reveals[i]).index != (#[trigger] reveals[j]).index
    &&& forall|k: int| 0 <= k < reveals.len() ==> has_index(reveals, #[trigger] place_of(reveals, k), k)
}

/// Whether the word at place `i` carries the index `k`.
pub open spec fn has_index(reveals: Seq<RevealedWord>, i: int, k: int) -> bool {
    0 <= i < reveals.len() && reveals[i].index == k
}

/// The place at which the word with index `k` stands.
pub open spec fn place_of(reveals: Seq<RevealedWord>, k: int) -> int {
    choose|i: int| has_index(reveals, i, k)
}

/// The first `len` bytes spelled by the words, taken in the order of their
/// indices.
pub open spec fn reassemble_spec(reveals: Seq<RevealedWord>, len: nat) -> Seq<u8> {
    Seq::new(len, |k: int| le_bytes(reveals[place_of(reveals, k / 4)].word)[k % 4])
}

/// Whether `len` bytes can be read back from the words.
pub open spec fn reassembles(reveals: Seq<RevealedWord>, len: nat) -> bool {
    complete(reveals) && len <= 4 * reveals.len()
}

/// Splitting a buffer into words and reading the words back in index
/// order, cut to the buffer's length, gives the buffer: for every length
/// that a buffer can have, also one that is no multiple of four.
pub proof fn lemma_reveal_roundtrip(bytes: Seq<u8>)
    requires
        bytes.len() <= usize::MAX,
    ensures
        reassembles(reveal_spec(bytes), bytes.len()),
        reassemble_spec(reveal_spec(bytes), bytes.len()) == bytes,
{
    let reveals = reveal_spec(bytes);
    let back = reassemble_spec(reveals, bytes.len());
    assert forall|k: int| 0 <= k < reveals.len() implies has_index(
        reveals,
        #[trigger] place_of(reveals, k),
        k,
    ) by {
        assert(has_index(reveals, k, k));
    }
    assert forall|k: int| 0 <= k < bytes.len() implies back[k] == bytes[k] by {
        let i = k / 4;
        assert(has_index(reveals, place_of(reveals, i), i));
        assert(place_of(reveals, i) == i);
        lemma_le_bytes_of_word(
            padded_byte(bytes, 4 * i),
            padded_byte(bytes, 4 * i + 1),
            padded_byte(bytes, 4 * i + 2),
            padded_byte(bytes, 4 * i + 3),
        );
        assert(reveals[i].word == word_at(bytes, i));
    }
    assert(back =~= bytes);
}

/// Byte `k` of the buffer, and zero past its end.
fn byte_or_zero(bytes: &Vec<u8>, k: usize) -> (b: u8)
    ensures
        b == padded_byte(bytes@, k as int),
{
    if k < bytes.len() {
        bytes[k]
    } else {
        0
    }
}

/// Splits `bytes` into four-byte words, the last one filled up with
/// zeros, and numbers them from zero.
pub fn reveal_words(bytes: &Vec<u8>) -> (reveals: Vec<RevealedWord>)
    ensures
        reveals@ == reveal_spec(bytes@),
{
    let len = bytes.len();
    let count: usize = len / 4 + (if len % 4 == 0 { 0 } else { 1 });
    let mut reveals: Vec<RevealedWord> = Vec::new();
    let mut i: usize = 0;
    while i < count
        invariant
            len == bytes@.len(),
            count == word_count(len as nat),
            i <= count,
            reveals@.len() == i,
            forall|j: int| 0 <= j < i ==> reveals@[j] == reveal_spec(bytes@)[j],
        decreases count - i,
    {
        let start: usize = 4 * i;
        let b0 = bytes[start];
        let b1 = byte_or_zero(bytes, start + 1);
        let b2 = byte_or_zero(bytes, start + 2);
        let b3 = byte_or_zero(bytes, start + 3);
        reveals.push(RevealedWord { index: i, word: word_from_bytes(b0, b1, b2, b3) });
        i = i + 1;
    }
    assert(reveals@ =~= reveal_spec(bytes@));
    reveals
}

/// Reads `len` bytes back from published words, whatever order the words
/// stand in. Every index below the number of words must occur once, and
/// the words must hold at least `len` bytes; anything else is an encoding
/// error.
pub fn reassemble(reveals: &Vec<RevealedWord>, len: usize) -> (r: Result<Vec<u8>, BenchError>)
    ensures
        reassembles(reveals@, len as nat) ==> r is Ok && r->Ok_0@ == reassemble_spec(
            reveals@,
            len as nat,
        ),
        !reassembles(reveals@, len as nat) ==> r == Err::<Vec<u8>, BenchError>(
            BenchError::EncodingError,
        ),
{
    let count = reveals.len();
    if len / 4 + (if len % 4 == 0 { 0usize } else { 1usize }) > count {
        return Err(BenchError::EncodingError);
    }
    let words = match words_by_index(reveals) {
        Some(words) => words,
        None => { return Err(BenchError::EncodingError); },
    };
    let mut bytes: Vec<u8> = Vec::new();
    let mut k: usize = 0;
    while k < len
        invariant
            count == reveals@.len(),
            words@.len() == count,
            complete(reveals@),
            forall|w: int| 0 <= w < count ==> words@[w] == reveals@[place_of(reveals@, w)].word,
            len <= 4 * count,
            k <= len,
            bytes@.len() == k,
            forall|j: int| 0 <= j < k ==> bytes@[j] == reassemble_spec(reveals@, len as nat)[j],
        decreases len - k,
    {
        let w = words[k / 4];
        let place = k % 4;
        let b: u8 = if place == 0 {
            (w % 256) as u8
        } else if place == 1 {
            ((w / 256) % 256) as u8
        } else if place == 2 {
            ((w / 65536) % 256) as u8
        } else {
            (w / 16777216) as u8
        };
        bytes.push(b);
        k = k + 1;
    }
    assert(bytes@ =~= reassemble_spec(reveals@, len as nat));
    Ok(bytes)
}

/// The words in the order of their indices; none where an index is out of
/// range, occurs twice or is missing.
fn words_by_index(reveals: &Vec<RevealedWord>) -> (r: Option<Vec<u32>>)
    ensures
        match r {
            Some(words) => {
                &&& complete(reveals@)
                &&& words@.len() == reveals@.len()
                &&& forall|w: int|
                    0 <= w < words@.len() ==> words@[w] == reveals@[place_of(reveals@, w)].word
            },
            None => !complete(reveals@),
        },
{
    let count = reveals.len();
    let mut words: Vec<u32> = Vec::new();
    let mut seen: Vec<bool> = Vec::new();
    let mut n: usize = 0;
    while n < count
        invariant
            n <= count,
            words@.len() == n,
            seen@.len() == n,
            forall|k: int| 0 <= k < n ==> !seen@[k],
        decreases count - n,
    {
        words.push(0);
        seen.push(false);
        n = n + 1;
    }
    // `owner[k]` is the place of the word that was put at index `k`.
    let ghost mut owner: Seq<int> = Seq::new(count as nat, |k: int| -1int);
    let mut i: usize = 0;
    while i < count
        invariant
            count == reveals@.len(),
            i <= count,
            words@.len() == count,
            seen@.len() == count,
            owner.len() == count,
            forall|j: int| 0 <= j < i ==> (#[trigger] reveals@[j]).index < count,
            forall|j: int|
                0 <= j < i ==> seen@[(#[trigger] reveals@[j]).index as int] && owner[reveals@[j].index as int]
                    == j,
            forall|k: int|
                0 <= k < count && #[trigger] seen@[k] ==> 0 <= owner[k] < i && reveals@[owner[k]].index
                    == k && words@[k] == reveals@[owner[k]].word,
        decreases count - i,
    {
        let index = reveals[i].index;
        if index >= count {
            return None;
        }
        if seen[index] {
            proof {
                let j = owner[index as int];
                assert(reveals@[j].index == reveals@[i as int].index);
            }
            return None;
        }
        words.set(index, reveals[i].word);
        seen.set(index, true);
        proof {
            owner = owner.update(index as int, i as int);
        }
        i = i + 1;
    }
    let mut k: usize = 0;
    while k < count
        invariant
            count == reveals@.len(),
            k <= count,
            seen@.len() == count,
            owner.len() == count,
            words@.len() == count,
            forall|j: int| 0 <= j < count ==> (#[trigger] reveals@[j]).index < count,
            forall|j: int|
                0 <= j < count ==> seen@[(#[trigger] reveals@[j]).index as int] && owner[reveals@[j].index as int]
                    == j,
            forall|k: int|
                0 <= k < count && #[trigger] seen@[k] ==> 0 <= owner[k] < count && reveals@[owner[k]].index
                    == k && words@[k] == reveals@[owner[k]].word,
            forall|m: int| 0 <= m < k ==> seen@[m],
        decreases count - k,
    {
        if !seen[k] {
            proof {
                assert forall|j: int| !has_index(reveals@, j, k as int) by {
                    if 0 <= j < count && reveals@[j].index == k {
                        assert(seen@[reveals@[j].index as int]);
                    }
                }
                assert(!has_index(reveals@, place_of(reveals@, k as int), k as int));
            }
            return None;
        }
        k = k + 1;
    }
    proof {
        assert forall|a: int, b: int| 0 <= a < b < count implies (#[trigger] reveals@[a]).index != (
        #[trigger] reveals@[b]).index by {
            assert(owner[reveals@[a].index as int] == a);
            assert(owner[reveals@[b].index as int] == b);
        }
        assert forall|w: int| 0 <= w < count implies has_index(
            reveals@,
            #[trigger] place_of(reveals@, w),
            w,
        ) by {
            assert(seen@[w]);
            assert(has_index(reveals@, owner[w], w));
        }
        assert forall|w: int| 0 <= w < count implies words@[w] == reveals@[place_of(
            reveals@,
            w,
        )].word by {
            let at = place_of(reveals@, w);
            assert(seen@[w]);
            assert(has_index(reveals@, at, w));
            assert(owner[reveals@[at].index as int] == at);
        }
    }
    Some(words)
}

} // verus!
