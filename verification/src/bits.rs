//! One-to-two bit expansion for controllers that keep two bits per pixel.
use vstd::prelude::*;

verus! {

/// Bit `i` of a packed byte of eight pixels.
pub open spec fn pixel(bits: u8, i: u16) -> bool {
    ((bits as u16) >> i) & 1 == 1
}

/// Bit `i` of a sixteen-bit word.
pub open spec fn word_bit(word: u16, i: u16) -> bool {
    (word >> i) & 1 == 1
}

/// The two adjacent bits that pixel `i` occupies after expansion: both set
/// if the pixel is set, both clear otherwise.
pub open spec fn pixel_pair(bits: u8, i: u16) -> u16 {
    if pixel(bits, i) {
        3u16 << ((2 * i) as u16)
    } else {
        0u16
    }
}

/// The expansion of a packed byte: pixel `i` fills bits `2i` and `2i + 1`.
pub open spec fn expanded(bits: u8) -> u16 {
    pixel_pair(bits, 0) | pixel_pair(bits, 1) | pixel_pair(bits, 2) | pixel_pair(bits, 3)
        | pixel_pair(bits, 4) | pixel_pair(bits, 5) | pixel_pair(bits, 6) | pixel_pair(bits, 7)
}

/// Bit `i` of the byte that keeps every even bit of `word`.
pub open spec fn even_bit(word: u16, i: u16) -> u8 {
    if word_bit(word, (2 * i) as u16) {
        1u8 << (i as u8)
    } else {
        0u8
    }
}

/// The byte made of bits 0, 2, 4, .., 14 of `word`, in that order.
pub open spec fn collapsed(word: u16) -> u8 {
    even_bit(word, 0) | even_bit(word, 1) | even_bit(word, 2) | even_bit(word, 3)
        | even_bit(word, 4) | even_bit(word, 5) | even_bit(word, 6) | even_bit(word, 7)
}

/// The word that two bytes form on the wire, the first one sent on top.
pub open spec fn word_of(first: u8, second: u8) -> u16 {
    ((first as u16) << 8) | (second as u16)
}

/// Doubles every bit of `bits`. The result is in transmission order: its
/// first byte holds pixels 7 to 4, its second pixels 3 to 0.
pub fn expand_bits(bits: u8) -> (out: [u8; 2])
    ensures
        word_of(out[0], out[1]) == expanded(bits),
        out[0] == (expanded(bits) >> 8) as u8,
        out[1] == (expanded(bits) & 0xFF) as u8,
{
    let x0: u16 = bits as u16;
    let x1: u16 = (x0 | (x0 << 4)) & 0x0F0F;
    let x2: u16 = (x1 | (x1 << 2)) & 0x3333;
    let x3: u16 = (x2 | (x2 << 1)) & 0x5555;
    let x4: u16 = x3 | (x3 << 1);
    let first: u8 = (x4 >> 8) as u8;
    let second: u8 = (x4 & 0xFF) as u8;
    proof {
        assert(x4 == expanded(bits)) by (bit_vector)
            requires
                x0 == bits as u16,
                x1 == (x0 | (x0 << 4)) & 0x0F0F,
                x2 == (x1 | (x1 << 2)) & 0x3333,
                x3 == (x2 | (x2 << 1)) & 0x5555,
                x4 == x3 | (x3 << 1),
        ;
        assert(word_of(first, second) == x4) by (bit_vector)
            requires
                first == (x4 >> 8) as u8,
                second == (x4 & 0xFF) as u8,
        ;
    }
    [first, second]
}

/// Undoes [`expand_bits`] on a pair in transmission order: keeps the even
/// bits of the word that the two bytes form.
pub fn collapse_bits(pair: [u8; 2]) -> (bits: u8)
    ensures
        bits == collapsed(word_of(pair[0], pair[1])),
{
    let first: u8 = pair[0];
    let second: u8 = pair[1];
    let w0: u16 = ((first as u16) << 8) | (second as u16);
    let w1: u16 = w0 & 0x5555;
    let w2: u16 = (w1 | (w1 >> 1)) & 0x3333;
    let w3: u16 = (w2 | (w2 >> 2)) & 0x0F0F;
    let w4: u16 = (w3 | (w3 >> 4)) & 0x00FF;
    let bits: u8 = w4 as u8;
    proof {
        assert(bits == collapsed(w0)) by (bit_vector)
            requires
                w1 == w0 & 0x5555,
                w2 == (w1 | (w1 >> 1)) & 0x3333,
                w3 == (w2 | (w2 >> 2)) & 0x0F0F,
                w4 == (w3 | (w3 >> 4)) & 0x00FF,
                bits == w4 as u8,
        ;
    }
    bits
}

/// Every pixel of a byte is found twice in its expansion, at bits `2i` and
/// `2i + 1`, so pixel 7 ends in the top two bits of the first byte sent.
pub proof fn lemma_expanded_doubles_each_pixel(bits: u8, i: u16)
    requires
        i < 8,
    ensures
        word_bit(expanded(bits), (2 * i) as u16) == pixel(bits, i),
        word_bit(expanded(bits), (2 * i + 1) as u16) == pixel(bits, i),
{
    assert(i < 8 ==> word_bit(expanded(bits), (2 * i) as u16) == pixel(bits, i)) by (bit_vector);
    assert(i < 8 ==> word_bit(expanded(bits), (2 * i + 1) as u16) == pixel(bits, i))
        by (bit_vector);
}

/// Taking bits 0, 2, 4, .., 14 of an expansion gives the byte back.
pub proof fn lemma_collapse_undoes_expand(bits: u8)
    ensures
        collapsed(expanded(bits)) == bits,
{
    assert(collapsed(expanded(bits)) == bits) by (bit_vector);
}

} // verus!
