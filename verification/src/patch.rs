//! Word-aligned read-modify-write arithmetic for patching a single byte of
//! the traced child's memory.
//!
//! The tracing facility only peeks and pokes whole machine words, so
//! installing or restoring a trap byte at an arbitrary address means: round
//! the address down to its word, read that word, replace one byte of it, and
//! write the word back.  Everything here is the pure arithmetic of that
//! transaction, for a little-endian, 8-byte-word target (x86-64); the peek
//! and poke themselves are issued by the unverified driver, which hands the
//! words in and out as plain values.

use vstd::prelude::*;

verus! {

/// Number of bytes in a machine word on the assumed x86-64 target.
pub const WORD_SIZE: usize = 8;

/// The byte at position `k` of the word `w`, counting from the least
/// significant end, which on a little-endian target is the byte at memory
/// offset `k` within the word.
pub open spec fn word_byte(w: u64, k: u64) -> u8
    recommends
        k < 8,
{
    ((w >> (8 * k)) & 0xff) as u8
}

/// The word `w` with the byte at position `k` replaced by `v` and every
/// other byte unchanged.
pub open spec fn word_set_byte(w: u64, k: u64, v: u8) -> u64
    recommends
        k < 8,
{
    (w & !(0xffu64 << (8 * k))) | ((v as u64) << (8 * k))
}

/// Rounds `addr` down to the start of the machine word that contains it.
pub fn align_addr_to_word(addr: usize) -> (r: usize)
    ensures
        r == addr - (addr % 8),
        r <= addr,
        addr - r < 8,
{
    let r = addr & !7usize;
    proof {
        assert(addr & !7usize == addr - addr % 8) by (bit_vector);
        assert(addr % 8 < 8) by (bit_vector);
    }
    r
}

/// The byte offset of `addr` within its machine word.
pub fn byte_offset_in_word(addr: usize) -> (r: usize)
    ensures
        r == addr % 8,
        r < 8,
{
    let r = addr & 7usize;
    proof {
        assert(addr & 7usize == addr % 8) by (bit_vector);
        assert(addr % 8 < 8) by (bit_vector);
    }
    r
}

/// Extracts the byte at position `k` of `w`.
pub fn extract_byte(w: u64, k: usize) -> (r: u8)
    requires
        k < 8,
    ensures
        r == word_byte(w, k as u64),
{
    ((w >> (8 * (k as u64))) & 0xff) as u8
}

/// Replaces the byte at position `k` of `w` by `v`.
pub fn replace_byte(w: u64, k: usize, v: u8) -> (r: u64)
    requires
        k < 8,
    ensures
        r == word_set_byte(w, k as u64, v),
{
    (w & !(0xffu64 << (8 * (k as u64)))) | ((v as u64) << (8 * (k as u64)))
}

/// One byte-patch transaction on the word that was read at the aligned
/// address: returns the byte previously at position `k` together with the
/// word to write back, in which that byte is now `v`.
pub fn patched_word(w: u64, k: usize, v: u8) -> (r: (u8, u64))
    requires
        k < 8,
    ensures
        r.0 == word_byte(w, k as u64),
        r.1 == word_set_byte(w, k as u64, v),
{
    (extract_byte(w, k), replace_byte(w, k, v))
}

/// After replacing byte `k`, reading byte `k` gives exactly the byte that
/// was written.
pub proof fn lemma_replace_then_extract(w: u64, k: u64, v: u8)
    requires
        k < 8,
    ensures
        word_byte(word_set_byte(w, k, v), k) == v,
{
    assert(((((w & !(0xffu64 << (8 * k))) | ((v as u64) << (8 * k))) >> (8 * k)) & 0xff) as u8
        == v) by (bit_vector)
        requires
            k < 8,
    ;
}

/// Replacing byte `k` leaves every other byte of the word as it was.
pub proof fn lemma_replace_preserves_others(w: u64, j: u64, k: u64, v: u8)
    requires
        j < 8,
        k < 8,
        j != k,
    ensures
        word_byte(word_set_byte(w, k, v), j) == word_byte(w, j),
{
    assert(((((w & !(0xffu64 << (8 * k))) | ((v as u64) << (8 * k))) >> (8 * j)) & 0xff) as u8
        == ((w >> (8 * j)) & 0xff) as u8) by (bit_vector)
        requires
            j < 8,
            k < 8,
            j != k,
    ;
}

/// Installing a byte at position `k` and then writing back the byte that was
/// saved from that position leaves the word exactly as it started, so a
/// breakpoint that is installed and restored without the child running in
/// between leaves memory byte-for-byte identical.
pub proof fn lemma_install_then_restore(w: u64, k: u64, v: u8)
    requires
        k < 8,
    ensures
        word_set_byte(word_set_byte(w, k, v), k, word_byte(w, k)) == w,
{
    let b = word_byte(w, k);
    assert(((((w & !(0xffu64 << (8 * k))) | ((v as u64) << (8 * k))) & !(0xffu64 << (8 * k))) | ((
    b as u64) << (8 * k))) == w) by (bit_vector)
        requires
            k < 8,
            b == ((w >> (8 * k)) & 0xff) as u8,
    ;
}

} // verus!
