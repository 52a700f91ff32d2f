//! The byte order in which words lie in memory.

use vstd::prelude::*;

verus! {

/// The byte order of the machine that fills the buffers and of the GPU that reads them.
#[derive(Debug, Clone, Copy, PartialEq, Eq, Structural)]
pub enum ByteOrder {
    /// The least significant byte comes first.
    Little,
    /// The most significant byte comes first.
    Big,
}

/// The byte of a word with the given significance, 0 for the least significant.
pub open spec fn significant_byte(word: u32, significance: int) -> u8 {
    if significance == 0 {
        (word % 0x100) as u8
    } else if significance == 1 {
        (word / 0x100 % 0x100) as u8
    } else if significance == 2 {
        (word / 0x1_0000 % 0x100) as u8
    } else {
        (word / 0x100_0000) as u8
    }
}

impl ByteOrder {
    /// Byte `k` of a word, counted in memory.
    pub open spec fn word_byte(self, word: u32, k: int) -> u8 {
        match self {
            ByteOrder::Little => significant_byte(word, k),
            ByteOrder::Big => significant_byte(word, 3 - k),
        }
    }

    /// The bytes of a sequence of words.
    pub open spec fn words_bytes(self, words: Seq<u32>) -> Seq<u8> {
        Seq::new(4 * words.len(), |i: int| self.word_byte(words[i / 4], i % 4))
    }

    /// The word whose bytes lie in memory in the given order.
    pub open spec fn word(self, b0: u8, b1: u8, b2: u8, b3: u8) -> u32 {
        match self {
            ByteOrder::Little => (b0 + 0x100 * b1 + 0x1_0000 * b2 + 0x100_0000 * b3) as u32,
            ByteOrder::Big => (b3 + 0x100 * b2 + 0x1_0000 * b1 + 0x100_0000 * b0) as u32,
        }
    }

    /// The word that lies at index `k` of a buffer of bytes, counted in words.
    pub open spec fn word_at(self, bytes: Seq<u8>, k: int) -> u32 {
        self.word(bytes[4 * k], bytes[4 * k + 1], bytes[4 * k + 2], bytes[4 * k + 3])
    }

    /// Appends the bytes of a word.
    pub fn push_word(self, bytes: &mut Vec<u8>, word: u32)
        ensures
            final(bytes)@ == old(bytes)@ + seq![
                self.word_byte(word, 0),
                self.word_byte(word, 1),
                self.word_byte(word, 2),
                self.word_byte(word, 3),
            ],
            bytes_sum_to(self, final(bytes)@.skip(old(bytes)@.len() as int), word),
    {
        let b0 = (word % 0x100) as u8;
        let b1 = (word / 0x100 % 0x100) as u8;
        let b2 = (word / 0x1_0000 % 0x100) as u8;
        let b3 = (word / 0x100_0000) as u8;
        match self {
            ByteOrder::Little => {
                bytes.push(b0);
                bytes.push(b1);
                bytes.push(b2);
                bytes.push(b3);
            },
            ByteOrder::Big => {
                bytes.push(b3);
                bytes.push(b2);
                bytes.push(b1);
                bytes.push(b0);
            },
        }
        assert(bytes@.skip(old(bytes)@.len() as int) =~= seq![
            self.word_byte(word, 0),
            self.word_byte(word, 1),
            self.word_byte(word, 2),
            self.word_byte(word, 3),
        ]);
        proof {
            significant_bytes_add_up(word);
        }
    }

    /// Turns a word whose least significant byte is meant to come first in memory into the word
    /// that has its bytes there in this order.
    pub fn from_little_endian(self, word: u32) -> (ordered: u32)
        ensures
            ordered == self.word(
                significant_byte(word, 0),
                significant_byte(word, 1),
                significant_byte(word, 2),
                significant_byte(word, 3),
            ),
            self is Little ==> ordered == word,
            self.words_bytes(seq![ordered]) == ByteOrder::Little.words_bytes(seq![word]),
    {
        proof {
            let b0 = significant_byte(word, 0);
            let b1 = significant_byte(word, 1);
            let b2 = significant_byte(word, 2);
            let b3 = significant_byte(word, 3);
            bytes_read_back(self, b0, b1, b2, b3);
            significant_bytes_add_up(word);
            assert(ByteOrder::Little.words_bytes(seq![word]) =~= seq![b0, b1, b2, b3]);
        }
        match self {
            ByteOrder::Little => word,
            ByteOrder::Big => {
                let b0 = word % 0x100;
                let b1 = word / 0x100 % 0x100;
                let b2 = word / 0x1_0000 % 0x100;
                let b3 = word / 0x100_0000;
                b3 + 0x100 * b2 + 0x1_0000 * b1 + 0x100_0000 * b0
            },
        }
    }
}

/// Whether `bytes` are four bytes that add up to `word`, each weighed by the place that the byte
/// order gives it: the first byte weighs least in [`ByteOrder::Little`] and most in
/// [`ByteOrder::Big`].
pub open spec fn bytes_sum_to(order: ByteOrder, bytes: Seq<u8>, word: u32) -> bool {
    &&& bytes.len() == 4
    &&& order is Little ==> word == bytes[0] + 0x100 * bytes[1] + 0x1_0000 * bytes[2] + 0x100_0000
        * bytes[3]
    &&& order is Big ==> word == 0x100_0000 * bytes[0] + 0x1_0000 * bytes[1] + 0x100 * bytes[2]
        + bytes[3]
}

/// The bytes of a word, weighed by their significance, add up to it.
proof fn significant_bytes_add_up(word: u32)
    ensures
        word == significant_byte(word, 0) + 0x100 * significant_byte(word, 1) + 0x1_0000
            * significant_byte(word, 2) + 0x100_0000 * significant_byte(word, 3),
{
    let upper = word as int / 0x100;
    let half = word as int / 0x1_0000;
    let top = word as int / 0x100_0000;
    assert(half == upper / 0x100);
    assert(top == half / 0x100);
    assert(top < 0x100);
    assert(word == 0x100 * upper + word % 0x100);
    assert(upper == 0x100 * half + upper % 0x100);
    assert(half == 0x100 * top + half % 0x100);
}

/// Serialized words take up four bytes each, one behind the other, and the four bytes of each
/// word, weighed by their significance, add up to it. In little-endian order the first of the
/// four is the least significant, in big-endian order the last.
pub proof fn bytes_add_up(order: ByteOrder, words: Seq<u32>, k: int)
    requires
        0 <= k < words.len(),
    ensures
        ({
            let bytes = order.words_bytes(words);
            &&& bytes.len() == 4 * words.len()
            &&& order is Little ==> words[k] == bytes[4 * k] + 0x100 * bytes[4 * k + 1] + 0x1_0000
                * bytes[4 * k + 2] + 0x100_0000 * bytes[4 * k + 3]
            &&& order is Big ==> words[k] == 0x100_0000 * bytes[4 * k] + 0x1_0000 * bytes[4 * k + 1]
                + 0x100 * bytes[4 * k + 2] + bytes[4 * k + 3]
        }),
{
    let bytes = order.words_bytes(words);
    let word = words[k];
    assert(bytes[4 * k] == order.word_byte(word, 0));
    assert(bytes[4 * k + 1] == order.word_byte(word, 1));
    assert(bytes[4 * k + 2] == order.word_byte(word, 2));
    assert(bytes[4 * k + 3] == order.word_byte(word, 3));
    significant_bytes_add_up(word);
}

/// The two byte orders lay the bytes of a word out in opposite directions.
pub proof fn orders_mirror(words: Seq<u32>, k: int, j: int)
    requires
        0 <= k < words.len(),
        0 <= j < 4,
    ensures
        ByteOrder::Little.words_bytes(words)[4 * k + j] == ByteOrder::Big.words_bytes(words)[4 * k
            + 3 - j],
{
}

/// Words are serialized one by one: the bytes of two runs of words lie behind each other.
pub proof fn words_bytes_append(order: ByteOrder, a: Seq<u32>, b: Seq<u32>)
    ensures
        order.words_bytes(a + b) == order.words_bytes(a) + order.words_bytes(b),
{
    assert(order.words_bytes(a + b) =~= order.words_bytes(a) + order.words_bytes(b));
}

/// Reading a word from serialized words gives that word back.
pub proof fn word_reads_back(order: ByteOrder, words: Seq<u32>, k: int)
    requires
        0 <= k < words.len(),
    ensures
        order.word_at(order.words_bytes(words), k) == words[k],
{
    let bytes = order.words_bytes(words);
    let word = words[k];
    assert(bytes[4 * k] == order.word_byte(word, 0));
    assert(bytes[4 * k + 1] == order.word_byte(word, 1));
    assert(bytes[4 * k + 2] == order.word_byte(word, 2));
    assert(bytes[4 * k + 3] == order.word_byte(word, 3));
    significant_bytes_add_up(word);
}

/// The bytes of a sum of bytes by significance.
pub(crate) proof fn significant_bytes_of_sum(word: u32, b0: u8, b1: u8, b2: u8, b3: u8)
    requires
        word == b0 + 0x100 * b1 + 0x1_0000 * b2 + 0x100_0000 * b3,
    ensures
        significant_byte(word, 0) == b0,
        significant_byte(word, 1) == b1,
        significant_byte(word, 2) == b2,
        significant_byte(word, 3) == b3,
{
    assert(word % 0x100 == b0);
    assert(word / 0x100 == b1 + 0x100 * b2 + 0x1_0000 * b3);
    assert(word / 0x100 % 0x100 == b1);
    assert(word / 0x1_0000 == b2 + 0x100 * b3);
    assert(word / 0x1_0000 % 0x100 == b2);
    assert(word / 0x100_0000 == b3);
}

/// The bytes that a word was made of lie in memory as they were given.
pub proof fn bytes_read_back(order: ByteOrder, b0: u8, b1: u8, b2: u8, b3: u8)
    ensures
        order.words_bytes(seq![order.word(b0, b1, b2, b3)]) == seq![b0, b1, b2, b3],
{
    let word = order.word(b0, b1, b2, b3);
    match order {
        ByteOrder::Little => significant_bytes_of_sum(word, b0, b1, b2, b3),
        ByteOrder::Big => significant_bytes_of_sum(word, b3, b2, b1, b0),
    }
    let bytes = order.words_bytes(seq![word]);
    assert(bytes[0] == b0 && bytes[1] == b1 && bytes[2] == b2 && bytes[3] == b3);
    assert(bytes =~= seq![b0, b1, b2, b3]);
}

} // verus!
