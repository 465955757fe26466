//! The byte image of a run of 32-bit words.
use vstd::prelude::*;

verus! {

/// A 32-bit float, held by the bits of its IEEE 754 encoding.
///
/// The passes hand such values on to the GPU as they are. `==` compares the
/// encodings; [`FloatBits::compares_equal`] compares the floats.
#[derive(Clone, Copy, Debug, PartialEq, Eq, Structural)]
pub struct FloatBits {
    pub bits: u32,
}

impl FloatBits {
    /// Positive and negative zero: the two encodings that compare equal to 0.
    pub open spec fn spec_is_zero(self) -> bool {
        self.bits == 0 || self.bits == 0x8000_0000
    }

    /// Whether the float compares equal to 0. A NaN does not.
    #[verifier::when_used_as_spec(spec_is_zero)]
    pub fn is_zero(self) -> (r: bool)
        ensures
            r == self.is_zero(),
    {
        self.bits == 0 || self.bits == 0x8000_0000
    }

    /// The encodings that are not a number: all bits of the exponent are set,
    /// and some bit behind it.
    pub open spec fn spec_is_nan(self) -> bool {
        self.bits % 0x8000_0000 > 0x7f80_0000
    }

    /// Whether the float is not a number.
    #[verifier::when_used_as_spec(spec_is_nan)]
    pub fn is_nan(self) -> (r: bool)
        ensures
            r == self.is_nan(),
    {
        self.bits % 0x8000_0000 > 0x7f80_0000
    }

    /// Two floats are equal if they are the same number. The two zeros are, and
    /// a NaN equals nothing.
    pub open spec fn spec_compares_equal(self, other: FloatBits) -> bool {
        ||| self.bits == other.bits && !self.is_nan()
        ||| self.is_zero() && other.is_zero()
    }

    /// Whether the two floats are equal as numbers.
    #[verifier::when_used_as_spec(spec_compares_equal)]
    pub fn compares_equal(self, other: FloatBits) -> (r: bool)
        ensures
            r == self.compares_equal(other),
    {
        (self.bits == other.bits && !self.is_nan()) || (self.is_zero() && other.is_zero())
    }
}

/// The order in which the bytes of a word are laid out.
#[derive(Clone, Copy, Debug, PartialEq, Eq, Structural)]
pub enum ByteOrder {
    Little,
    Big,
}

/// Byte `k` of a word, counted from the least significant one.
pub open spec fn byte_of_word(word: u32, k: int) -> u8 {
    if k == 0 {
        (word % 0x100) as u8
    } else if k == 1 {
        (word / 0x100 % 0x100) as u8
    } else if k == 2 {
        (word / 0x1_0000 % 0x100) as u8
    } else {
        (word / 0x100_0000) as u8
    }
}

/// The bytes of `words` one after the other, each word's in the given order.
pub open spec fn words_to_bytes(words: Seq<u32>, order: ByteOrder) -> Seq<u8> {
    Seq::new(
        4 * words.len(),
        |i: int|
            byte_of_word(
                words[i / 4],
                match order {
                    ByteOrder::Little => i % 4,
                    ByteOrder::Big => 3 - i % 4,
                },
            ),
    )
}

/// The word that stands at byte `offset` of `bytes`.
pub open spec fn word_at(bytes: Seq<u8>, order: ByteOrder, offset: int) -> int {
    match order {
        ByteOrder::Little => bytes[offset] + 0x100 * bytes[offset + 1] + 0x1_0000 * bytes[offset
            + 2] + 0x100_0000 * bytes[offset + 3],
        ByteOrder::Big => bytes[offset + 3] + 0x100 * bytes[offset + 2] + 0x1_0000 * bytes[offset
            + 1] + 0x100_0000 * bytes[offset],
    }
}

/// Reading the bytes of `words` back in the order they were laid out in gives
/// each word again.
pub proof fn law_words_read_back(words: Seq<u32>, order: ByteOrder, i: int)
    requires
        0 <= i < words.len(),
    ensures
        word_at(words_to_bytes(words, order), order, 4 * i) == words[i],
{
    let bytes = words_to_bytes(words, order);
    let w = words[i];
    assert((4 * i) / 4 == i && (4 * i + 1) / 4 == i && (4 * i + 2) / 4 == i && (4 * i + 3) / 4
        == i);
    assert(w == w % 0x100 + 0x100 * (w / 0x100 % 0x100) + 0x1_0000 * (w / 0x1_0000 % 0x100)
        + 0x100_0000 * (w / 0x100_0000));
}

/// The bytes of a word stand together, four for each word, and add up to it: from
/// the least significant one on, or from the most significant one on.
pub proof fn law_bytes_add_up_to_their_word(words: Seq<u32>, i: int)
    requires
        0 <= i < words.len(),
    ensures
        ({
            let little = words_to_bytes(words, ByteOrder::Little);
            let big = words_to_bytes(words, ByteOrder::Big);
            &&& little.len() == 4 * words.len()
            &&& big.len() == 4 * words.len()
            &&& words[i] == little[4 * i] + 256 * little[4 * i + 1] + 65536 * little[4 * i + 2]
                + 16777216 * little[4 * i + 3]
            &&& words[i] == 16777216 * big[4 * i] + 65536 * big[4 * i + 1] + 256 * big[4 * i + 2]
                + big[4 * i + 3]
        }),
{
    law_words_read_back(words, ByteOrder::Little, i);
    law_words_read_back(words, ByteOrder::Big, i);
}

/// A word is read from the four bytes that begin at its offset.
pub proof fn law_a_word_is_read_from_four_bytes(bytes: Seq<u8>, offset: int)
    ensures
        word_at(bytes, ByteOrder::Little, offset) == bytes[offset] + 256 * bytes[offset + 1] + 65536
            * bytes[offset + 2] + 16777216 * bytes[offset + 3],
        word_at(bytes, ByteOrder::Big, offset) == 16777216 * bytes[offset] + 65536 * bytes[offset
            + 1] + 256 * bytes[offset + 2] + bytes[offset + 3],
{
}

/// A float is one of three: a zero if all bits but the sign are clear; not a
/// number if the eight bits of the exponent are set and some of the 23 bits
/// behind them; else another number.
pub proof fn law_an_encoding_tells_zeros_and_nans(float: FloatBits)
    ensures
        float.spec_is_zero() <==> float.bits % 0x8000_0000 == 0,
        float.spec_is_nan() <==> float.bits / 0x80_0000 % 0x100 == 0xff && float.bits % 0x80_0000
            != 0,
        !(float.spec_is_zero() && float.spec_is_nan()),
{
}

/// A float equals itself unless it is not a number, which equals nothing. A zero
/// equals the zeros, and any other number equals its own encoding alone.
pub proof fn law_floats_are_equal_as_numbers(a: FloatBits, b: FloatBits, c: FloatBits)
    ensures
        a.spec_compares_equal(a) <==> !a.spec_is_nan(),
        a.spec_compares_equal(b) <==> b.spec_compares_equal(a),
        a.spec_compares_equal(b) && b.spec_compares_equal(c) ==> a.spec_compares_equal(c),
        a.spec_is_zero() ==> (a.spec_compares_equal(b) <==> b.spec_is_zero()),
        !a.spec_is_zero() && !a.spec_is_nan() ==> (a.spec_compares_equal(b) <==> a.bits == b.bits),
{
    law_an_encoding_tells_zeros_and_nans(a);
    law_an_encoding_tells_zeros_and_nans(b);
    law_an_encoding_tells_zeros_and_nans(c);
}

/// Every word of a run of words is read back at four times its place.
pub(crate) proof fn lemma_all_words_read_back(words: Seq<u32>, order: ByteOrder)
    ensures
        words_to_bytes(words, order).len() == 4 * words.len(),
        forall|i: int|
            0 <= i < words.len() ==> word_at(words_to_bytes(words, order), order, 4 * i)
                == #[trigger] words[i],
{
    assert forall|i: int| 0 <= i < words.len() implies word_at(
        words_to_bytes(words, order),
        order,
        4 * i,
    ) == #[trigger] words[i] by {
        law_words_read_back(words, order, i);
    }
}

/// The bytes in memory of an array of words: `bytemuck::bytes_of`, copied out.
///
/// The function hands back the memory that the array takes up. So its result
/// is the words' bytes one after the other, all in the order of the machine,
/// which is one of the two; which one is left open.
#[verifier::external_body]
fn bytes_of<const N: usize>(words: &[u32; N]) -> (bytes: Vec<u8>)
    ensures
        exists|order: ByteOrder| bytes@ == words_to_bytes(words@, order),
{
    bytemuck::bytes_of(words).to_vec()
}

/// Byte `k` of a word, counted from the least significant one.
fn get_byte_of_word(word: u32, k: usize) -> (r: u8)
    requires
        k < 4,
    ensures
        r == byte_of_word(word, k as int),
{
    match k {
        0 => (word % 0x100) as u8,
        1 => (word / 0x100 % 0x100) as u8,
        2 => (word / 0x1_0000 % 0x100) as u8,
        _ => (word / 0x100_0000) as u8,
    }
}

/// Whether `bytes` are those of `words` in the given order.
fn are_bytes_of<const N: usize>(bytes: &Vec<u8>, words: &[u32; N], order: ByteOrder) -> (r: bool)
    requires
        bytes@.len() == 4 * N,
    ensures
        r == (bytes@ == words_to_bytes(words@, order)),
{
    let mut i: usize = 0;
    while i < bytes.len()
        invariant
            i <= bytes@.len() == 4 * N,
            forall|k: int| 0 <= k < i ==> bytes@[k] == words_to_bytes(words@, order)[k],
        decreases bytes@.len() - i,
    {
        let k: usize = match order {
            ByteOrder::Little => i % 4,
            ByteOrder::Big => 3 - i % 4,
        };
        if bytes[i] != get_byte_of_word(words[i / 4], k) {
            assert(bytes@[i as int] != words_to_bytes(words@, order)[i as int]);
            return false;
        }
        i += 1;
    }
    assert(bytes@ =~= words_to_bytes(words@, order));
    true
}

/// The bytes of each word turned around.
fn turn_words(bytes: &Vec<u8>) -> (r: Vec<u8>)
    requires
        bytes@.len() % 4 == 0,
    ensures
        r@ == Seq::new(bytes@.len(), |i: int| bytes@[4 * (i / 4) + (3 - i % 4)]),
{
    let mut turned: Vec<u8> = Vec::new();
    let mut i: usize = 0;
    while i < bytes.len()
        invariant
            i <= bytes@.len(),
            bytes@.len() % 4 == 0,
            turned@.len() == i,
            forall|k: int| 0 <= k < i ==> turned@[k] == bytes@[4 * (k / 4) + (3 - k % 4)],
        decreases bytes@.len() - i,
    {
        turned.push(bytes[i / 4 * 4 + (3 - i % 4)]);
        i += 1;
    }
    turned
}

/// The bytes of the words in the given order. Where the machine keeps words in
/// the other one, the bytes of each word are turned around.
pub(crate) fn bytes_in_order<const N: usize>(words: &[u32; N], order: ByteOrder) -> (bytes: Vec<
    u8,
>)
    ensures
        bytes@ == words_to_bytes(words@, order),
{
    let bytes = bytes_of(words);
    if are_bytes_of(&bytes, words, order) {
        return bytes;
    }
    let turned = turn_words(&bytes);
    assert(turned@ =~= words_to_bytes(words@, order));
    turned
}

/// A block of words whose bytes are all zero: `bytemuck::Zeroable::zeroed`.
///
/// The value of a word whose bytes are all zero is 0.
#[verifier::external_body]
pub(crate) fn zeroed_words() -> (words: [u32; 64])
    ensures
        words@ == Seq::new(64, |i: int| 0u32),
{
    bytemuck::Zeroable::zeroed()
}

} // verus!
