use vstd::prelude::*;

verus! {

/// A count moved on by `step`, wrapping round at the machine's word.
pub open spec fn wrapped_count(count: usize, step: u16) -> usize {
    if count + step > usize::MAX {
        (count + step - usize::MAX - 1) as usize
    } else {
        (count + step) as usize
    }
}

/// Masking a byte leaves no more than the mask and no more than the byte.
pub proof fn lemma_and_bounds_u8(x: u8, m: u8)
    by (bit_vector)
    ensures
        x & m <= m,
        x & m <= x,
{
}

/// Masking a 16-bit word leaves no more than the mask and no more than the
/// word.
pub proof fn lemma_and_bounds_u16(x: u16, m: u16)
    by (bit_vector)
    ensures
        x & m <= m,
        x & m <= x,
{
}

/// A right shift of a byte is a division by a power of two.
pub proof fn lemma_shr_u8(x: u8)
    by (bit_vector)
    ensures
        x >> 1 == x / 2,
        x >> 2 == x / 4,
        x >> 3 == x / 8,
        x >> 4 == x / 16,
        x >> 5 == x / 32,
        x >> 6 == x / 64,
        x >> 7 == x / 128,
{
}

/// The low masks of a 16-bit word are remainders, and its high byte is a
/// quotient.
pub proof fn lemma_low_mask_u16(x: u16)
    by (bit_vector)
    ensures
        x & 0xFF == x % 256,
        x & 0x07FF == x % 0x800,
        x & 0x3FFF == x % 0x4000,
        x >> 8 == x / 256,
        x & 0xFF00 == (x / 256) * 256,
{
}

/// Where bit 13 of a word is set, clearing bit 12 and taking 0x2000 off
/// leaves the twelve low bits; and every word from 0x2000 up to 0x3FFF has
/// bit 13 set.
pub proof fn lemma_fold_nametable_address(x: u16)
    by (bit_vector)
    ensures
        x & 0x2000 != 0 ==> (x & 0x2FFF) >= 0x2000 && (x & 0x2FFF) - 0x2000 == x % 0x1000,
        0x2000 <= x < 0x4000 ==> x & 0x2000 != 0,
{
}

/// A word cut into its high and low byte and joined again is the word.
pub proof fn lemma_split_word(w: u16)
    by (bit_vector)
    ensures
        ((((w >> 8) as u8) as u16) << 8) | (((w & 0xFF) as u8) as u16) == w,
{
}

/// The first address of a page is the page number times 256.
pub proof fn lemma_page_base(page: u8)
    by (bit_vector)
    ensures
        (page as u16) << 8 == page * 256,
{
}

} // verus!
