//! Bit-field arithmetic on register words.
//!
//! A field is a contiguous run of bits `start ..= end` of a machine word.
//! [`extract`] reads the run as a number, [`insert`] replaces it and leaves
//! every other bit alone.

use vstd::prelude::*;

verus! {

/// Whether `start ..= end` names a run of bits inside a register word.
pub open spec fn valid_field(start: usize, end: usize) -> bool {
    start <= end && end < usize::BITS
}

/// The word whose low `len` bits are set and whose other bits are clear.
pub open spec fn low_mask(len: usize) -> usize {
    if len >= usize::BITS {
        usize::MAX
    } else {
        ((1usize << len) - 1) as usize
    }
}

/// The word whose bits `start ..= end` are set and whose other bits are clear.
pub open spec fn field_mask(start: usize, end: usize) -> usize {
    low_mask((end - start + 1) as usize) << start
}

/// The number held in bits `start ..= end` of `value`.
pub open spec fn extract_spec(value: usize, start: usize, end: usize) -> usize {
    (value >> start) & low_mask((end - start + 1) as usize)
}

/// `value` with bits `start ..= end` replaced by the low bits of `sub`.
pub open spec fn insert_spec(value: usize, start: usize, end: usize, sub: usize) -> usize {
    (value & !field_mask(start, end)) | ((sub & low_mask((end - start + 1) as usize)) << start)
}

/// Whether bit `index` of `value` is set.
pub open spec fn bit_is_set(value: usize, index: usize) -> bool {
    (value >> index) & 1 == 1
}

/// Computes the word with its low `len` bits set.
pub fn make_low_mask(len: usize) -> (mask: usize)
    ensures
        mask == low_mask(len),
{
    if len >= usize::BITS as usize {
        usize::MAX
    } else {
        assert((1usize << len) >= 1) by (bit_vector)
            requires
                len < usize::BITS,
        ;
        (1usize << len) - 1
    }
}

/// Reads the field `start ..= end` of `value`: the word is shifted right by
/// `start` and cut down to the field's length.
pub fn extract(value: usize, start: usize, end: usize) -> (sub: usize)
    requires
        valid_field(start, end),
    ensures
        sub == extract_spec(value, start, end),
        sub <= low_mask((end - start + 1) as usize),
{
    let mask = make_low_mask(end - start + 1);
    proof {
        lemma_extract_bounded(value, start, end);
    }
    (value >> start) & mask
}

/// Writes `sub` into the field `start ..= end` of `value`. Bits of `sub`
/// beyond the field's length are dropped; bits of `value` outside the field
/// are kept.
pub fn insert(value: usize, start: usize, end: usize, sub: usize) -> (word: usize)
    requires
        valid_field(start, end),
    ensures
        word == insert_spec(value, start, end, sub),
{
    let mask = make_low_mask(end - start + 1);
    (value & !(mask << start)) | ((sub & mask) << start)
}

/// The largest word is the one with every bit set.
pub proof fn lemma_all_ones()
    ensures
        usize::MAX == !0usize,
{
    assert(usize::BITS == 64 ==> !0usize == 0xFFFF_FFFF_FFFF_FFFF) by (bit_vector);
    assert(usize::BITS == 32 ==> !0usize == 0xFFFF_FFFF) by (bit_vector);
}

/// An extracted field never exceeds the largest number its length can hold.
pub proof fn lemma_extract_bounded(value: usize, start: usize, end: usize)
    requires
        valid_field(start, end),
    ensures
        extract_spec(value, start, end) <= low_mask((end - start + 1) as usize),
{
    let len = (end - start + 1) as usize;
    let m = low_mask(len);
    let shifted = value >> start;
    assert(shifted & m <= m) by (bit_vector);
}

/// Writing a field back into the word it was read from changes nothing.
pub proof fn lemma_insert_extract(value: usize, start: usize, end: usize)
    requires
        valid_field(start, end),
    ensures
        insert_spec(value, start, end, extract_spec(value, start, end)) == value,
{
    let len = (end - start + 1) as usize;
    let m = low_mask(len);
    assert((value & !(m << start)) | ((((value >> start) & m) & m) << start) == value)
        by (bit_vector)
        requires
            start < usize::BITS,
    ;
}

/// Reading a field that was just written gives back what was written, cut
/// down to the field's length.
pub proof fn lemma_extract_insert(value: usize, start: usize, end: usize, sub: usize)
    requires
        valid_field(start, end),
    ensures
        extract_spec(insert_spec(value, start, end, sub), start, end) == sub & low_mask(
            (end - start + 1) as usize,
        ),
{
    let len = (end - start + 1) as usize;
    let m = low_mask(len);
    lemma_all_ones();
    assert(m == !0usize >> ((usize::BITS - len) as usize)) by (bit_vector)
        requires
            1 <= len <= usize::BITS,
            m == if len >= usize::BITS {
                !0usize
            } else {
                ((1usize << len) - 1) as usize
            },
    ;
    assert((((value & !(m << start)) | ((sub & m) << start)) >> start) & m == sub & m)
        by (bit_vector)
        requires
            1 <= len <= usize::BITS,
            start + len <= usize::BITS,
            m == !0usize >> ((usize::BITS - len) as usize),
    ;
}

/// Writing a field leaves every bit outside it as it was.
pub proof fn lemma_insert_keeps_rest(value: usize, start: usize, end: usize, sub: usize)
    requires
        valid_field(start, end),
    ensures
        insert_spec(value, start, end, sub) & !field_mask(start, end) == value & !field_mask(
            start,
            end,
        ),
{
    let len = (end - start + 1) as usize;
    let m = low_mask(len);
    assert(((value & !(m << start)) | ((sub & m) << start)) & !(m << start) == value & !(m
        << start)) by (bit_vector)
        requires
            start < usize::BITS,
    ;
}

/// Bit `index` of an extracted field is bit `start + index` of the word
/// inside the field's length, and clear beyond it.
pub proof fn lemma_extract_bit(value: usize, start: usize, end: usize, index: usize)
    requires
        valid_field(start, end),
        index < usize::BITS,
    ensures
        bit_is_set(extract_spec(value, start, end), index) == (index <= end - start && bit_is_set(
            value,
            (start + index) as usize,
        )),
{
    let len = (end - start + 1) as usize;
    let m = low_mask(len);
    lemma_all_ones();
    assert(((((value >> start) & m) >> index) & 1 == 1) == (index < len && ((value >> ((start
        + index) as usize)) & 1 == 1))) by (bit_vector)
        requires
            1 <= len <= usize::BITS,
            start + len <= usize::BITS,
            index < usize::BITS,
            m == if len >= usize::BITS {
                !0usize
            } else {
                ((1usize << len) - 1) as usize
            },
    ;
}

/// Bit `index` of a word after a write to a field is the matching bit of
/// the written number inside the field, and the word's old bit outside it.
pub proof fn lemma_insert_bit(value: usize, start: usize, end: usize, sub: usize, index: usize)
    requires
        valid_field(start, end),
        index < usize::BITS,
    ensures
        bit_is_set(insert_spec(value, start, end, sub), index) == (if start <= index <= end {
            bit_is_set(sub, (index - start) as usize)
        } else {
            bit_is_set(value, index)
        }),
{
    let len = (end - start + 1) as usize;
    let m = low_mask(len);
    lemma_all_ones();
    assert(((((value & !(m << start)) | ((sub & m) << start)) >> index) & 1 == 1) == (if start
        <= index < start + len {
        (sub >> ((index - start) as usize)) & 1 == 1
    } else {
        (value >> index) & 1 == 1
    })) by (bit_vector)
        requires
            1 <= len <= usize::BITS,
            start + len <= usize::BITS,
            index < usize::BITS,
            m == if len >= usize::BITS {
                !0usize
            } else {
                ((1usize << len) - 1) as usize
            },
    ;
}

/// A field that spans the whole word is the word itself: reading it gives
/// the word, writing it replaces the word.
pub proof fn lemma_full_width(value: usize, sub: usize)
    ensures
        extract_spec(value, 0, (usize::BITS - 1) as usize) == value,
        insert_spec(value, 0, (usize::BITS - 1) as usize, sub) == sub,
{
    let m = usize::MAX;
    lemma_all_ones();
    assert((value >> 0usize) & m == value) by (bit_vector)
        requires
            m == !0usize,
    ;
    assert((value & !(m << 0usize)) | ((sub & m) << 0usize) == sub) by (bit_vector)
        requires
            m == !0usize,
    ;
}

} // verus!
