//! Bit strings: bit 0 is the most significant bit of byte 0.

use vstd::prelude::*;

verus! {

/// The byte that holds bit `bitnum`.
pub open spec fn bit_byte(bitnum: int) -> int {
    bitnum / 8
}

/// The mask that selects bit `bitnum` within its byte.
pub open spec fn bit_mask(bitnum: int) -> u8 {
    0x80u8 >> ((bitnum % 8) as u8)
}

/// Whether bit `bitnum` of `buf` is set; a bit beyond the buffer counts as clear.
pub open spec fn bit_is_set(buf: Seq<u8>, bitnum: int) -> bool {
    bit_byte(bitnum) < buf.len() && buf[bit_byte(bitnum)] & bit_mask(bitnum) != 0
}

/// `buf` with bit `bitnum` set; unchanged where the bit lies beyond the buffer.
pub open spec fn with_bit_on(buf: Seq<u8>, bitnum: int) -> Seq<u8> {
    if bit_byte(bitnum) < buf.len() {
        buf.update(bit_byte(bitnum), buf[bit_byte(bitnum)] | bit_mask(bitnum))
    } else {
        buf
    }
}

/// `buf` with bit `bitnum` cleared; unchanged where the bit lies beyond the buffer.
pub open spec fn with_bit_off(buf: Seq<u8>, bitnum: int) -> Seq<u8> {
    if bit_byte(bitnum) < buf.len() {
        buf.update(bit_byte(bitnum), buf[bit_byte(bitnum)] & !bit_mask(bitnum))
    } else {
        buf
    }
}

/// Sets bit `bitnum` of `buf`.
pub fn bstr_bit_set_on(buf: &mut [u8], bitnum: usize)
    ensures
        final(buf)@ == with_bit_on(old(buf)@, bitnum as int),
{
    let byte_index = bitnum / 8;
    let bit_index = bitnum & 7;
    assert(bitnum & 7 == bitnum % 8) by (bit_vector);
    if byte_index >= buf.len() {
        return ;
    }
    buf[byte_index] |= 0x80u8 >> (bit_index as u8);
}

/// Clears bit `bitnum` of `buf`.
pub fn bstr_bit_set_off(buf: &mut [u8], bitnum: usize)
    ensures
        final(buf)@ == with_bit_off(old(buf)@, bitnum as int),
{
    let byte_index = bitnum / 8;
    let bit_index = bitnum & 7;
    assert(bitnum & 7 == bitnum % 8) by (bit_vector);
    if byte_index >= buf.len() {
        return ;
    }
    buf[byte_index] &= !(0x80u8 >> (bit_index as u8));
}

/// Reads bit `bitnum` of `buf`.
pub fn bstr_bit_get(buf: &[u8], bitnum: usize) -> (r: bool)
    ensures
        r == bit_is_set(buf@, bitnum as int),
{
    let byte_index = bitnum / 8;
    let bit_index = bitnum & 7;
    assert(bitnum & 7 == bitnum % 8) by (bit_vector);
    if byte_index >= buf.len() {
        return false;
    }
    buf[byte_index] & (0x80u8 >> (bit_index as u8)) != 0
}

/// A bit that was set reads back as set, and every other bit reads as before.
pub proof fn lemma_set_on_then_get(buf: Seq<u8>, bitnum: int, other: int)
    requires
        0 <= bitnum,
        0 <= other,
    ensures
        bit_byte(bitnum) < buf.len() ==> bit_is_set(with_bit_on(buf, bitnum), bitnum),
        other != bitnum ==> bit_is_set(with_bit_on(buf, bitnum), other) == bit_is_set(buf, other),
{
    let m = (bitnum % 8) as u8;
    let o = (other % 8) as u8;
    if bit_byte(bitnum) < buf.len() {
        let b = buf[bit_byte(bitnum)];
        assert((b | (0x80u8 >> m)) & (0x80u8 >> m) != 0) by (bit_vector)
            requires
                m < 8,
        ;
        if other != bitnum && bit_byte(other) == bit_byte(bitnum) {
            assert(((b | (0x80u8 >> m)) & (0x80u8 >> o) != 0) == (b & (0x80u8 >> o) != 0))
                by (bit_vector)
                requires
                    m < 8,
                    o < 8,
                    m != o,
            ;
        }
    }
}

/// A bit that was cleared reads back as clear, and every other bit reads as before.
pub proof fn lemma_set_off_then_get(buf: Seq<u8>, bitnum: int, other: int)
    requires
        0 <= bitnum,
        0 <= other,
    ensures
        !bit_is_set(with_bit_off(buf, bitnum), bitnum),
        other != bitnum ==> bit_is_set(with_bit_off(buf, bitnum), other) == bit_is_set(buf, other),
{
    let m = (bitnum % 8) as u8;
    let o = (other % 8) as u8;
    if bit_byte(bitnum) < buf.len() {
        let b = buf[bit_byte(bitnum)];
        assert((b & !(0x80u8 >> m)) & (0x80u8 >> m) == 0) by (bit_vector)
            requires
                m < 8,
        ;
        if other != bitnum && bit_byte(other) == bit_byte(bitnum) {
            assert(((b & !(0x80u8 >> m)) & (0x80u8 >> o) != 0) == (b & (0x80u8 >> o) != 0))
                by (bit_vector)
                requires
                    m < 8,
                    o < 8,
                    m != o,
            ;
        }
    }
}

} // verus!
