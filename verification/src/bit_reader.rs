//! What this library relies on of the `bitreader` crate, which reads a slice
//! of bytes bit by bit.
//!
//! What is said of the functions of the crate is not proved here: it is
//! taken from the source of the crate. What is said of the numbers that the
//! bits make is proved.

use vstd::prelude::*;
use vstd::arithmetic::power2::pow2;
use crate::byte_handler::bit_at;
use crate::byte_handler::field_at;
use crate::byte_handler::lemma_be_value_unfold;
use crate::byte_handler::lemma_bits_read_back;
use crate::byte_handler::view_over;
use bitreader::BitReader;
use bitreader::BitReaderError;

verus! {

/// `bitreader::BitReader`, of which nothing is known here but what the
/// statements below tell.
#[verifier::external_type_specification]
#[verifier::external_body]
pub struct ExBitReader<'a>(BitReader<'a>);

/// `bitreader::BitReaderError`, which is handed on unread.
#[verifier::external_type_specification]
#[verifier::external_body]
pub struct ExBitReaderError(BitReaderError);

/// The bytes of the slice that a reader reads from.
pub uninterp spec fn reader_bytes(reader: BitReader<'_>) -> Seq<u8>;

/// The place of the next bit that a reader reads, counted in bits from the
/// start of its slice.
pub uninterp spec fn reader_position(reader: BitReader<'_>) -> nat;

/// The place behind the last bit that a reader may read, counted in bits
/// from the start of its slice.
pub uninterp spec fn reader_limit(reader: BitReader<'_>) -> nat;

/// Bit `i` of `bytes`, where bit 0 is the most significant bit of the first
/// byte.
#[verifier::opaque]
pub open spec fn bit_of(bytes: Seq<u8>, i: nat) -> nat {
    bytes[i as int / 8] as nat / pow2((7 - i % 8) as nat) % 2
}

/// The number that the `count` bits of `bytes` from bit `from` on make, the
/// first of them being the most significant.
#[verifier::opaque]
pub open spec fn bits_value(bytes: Seq<u8>, from: nat, count: nat) -> nat
    decreases count,
{
    if count == 0 {
        0
    } else {
        bits_value(bytes, from, (count - 1) as nat) * 2 + bit_of(bytes, (from + count - 1) as nat)
    }
}

/// A bit as a reader counts it is a bit of the view over the bytes around
/// it: in a window of `len` bytes from byte `first` on, the bit of number
/// `k` from the top is bit `8 * len - 1 - k` of the word.
pub proof fn lemma_bit_of_view(data: Seq<u8>, first: nat, len: nat, k: nat)
    requires
        len <= 4,
        first + len <= data.len(),
        k < 8 * len,
    ensures
        bit_of(data, 8 * first + k) == if bit_at(
            view_over(data, first as int, (first + len) as int),
            8 * len - 1 - k,
        ) {
            1nat
        } else {
            0nat
        },
{
    reveal(bit_of);
    let window = data.subrange(first as int, (first + len) as int);
    let m = 8 * len - 1 - k;
    lemma_be_value_unfold(window);
    lemma_bits_read_back(window, m);
    assert(m / 8 == len - 1 - k / 8 && m % 8 == 7 - k % 8) by {
        assert(m == 8 * (len - 1 - k / 8) + (7 - k % 8));
    }
    assert((8 * first + k) as int / 8 == first + k / 8 && (8 * first + k) % 8 == k % 8);
    assert(window[k as int / 8] == data[first + k as int / 8]);
}

/// What a reader reads is a field of the view over the bytes around it: in
/// a window of `len` bytes from byte `first` on, the `count` bits from the
/// bit of number `offset` from the top on are the field of the word that
/// ends `offset + count` bits below its top.
pub proof fn lemma_bits_value_of_view(data: Seq<u8>, first: nat, len: nat, offset: nat, count: nat)
    requires
        len <= 4,
        first + len <= data.len(),
        offset + count <= 8 * len,
    ensures
        bits_value(data, 8 * first + offset, count) == field_at(
            view_over(data, first as int, (first + len) as int),
            (8 * len - offset - count) as nat,
            count,
        ),
    decreases count,
{
    reveal(bits_value);
    let word = view_over(data, first as int, (first + len) as int);
    let low = (8 * len - offset - count) as nat;
    vstd::arithmetic::power2::lemma2_to64();
    vstd::arithmetic::power2::lemma_pow2_pos(low);
    if count == 0 {
        assert(word as nat / pow2(low) % 1 == 0);
    } else {
        lemma_bits_value_of_view(data, first, len, offset, (count - 1) as nat);
        lemma_bit_of_view(data, first, len, (offset + count - 1) as nat);
        let moved = word as nat / pow2(low);
        // the field without its lowest bit, and that bit
        vstd::arithmetic::power2::lemma_pow2_adds(low, 1);
        vstd::arithmetic::div_mod::lemma_div_denominator(word as int, pow2(low) as int, 2);
        assert(word as nat / pow2(low + 1) == moved / 2);
        vstd::arithmetic::power2::lemma_pow2_adds(1, (count - 1) as nat);
        vstd::arithmetic::power2::lemma_pow2_pos((count - 1) as nat);
        vstd::arithmetic::div_mod::lemma_mod_breakdown(
            moved as int,
            2,
            pow2((count - 1) as nat) as int,
        );
        assert(moved % pow2(count) == 2 * (moved / 2 % pow2((count - 1) as nat)) + moved % 2);
        assert(bit_at(word, low as int) == (moved % 2 == 1));
    }
}

/// Eight bits that fill a byte make the number of that byte.
pub proof fn lemma_bits_value_of_byte(bytes: Seq<u8>, i: nat)
    requires
        i < bytes.len(),
    ensures
        bits_value(bytes, 8 * i, 8) == bytes[i as int],
{
    reveal_with_fuel(bits_value, 9);
    reveal(bit_of);
    vstd::arithmetic::power2::lemma2_to64();
    let b: u8 = bytes[i as int];
    let from = 8 * i;
    assert((from + 0) as int / 8 == i && (from + 1) as int / 8 == i && (from + 2) as int / 8 == i
        && (from + 3) as int / 8 == i && (from + 4) as int / 8 == i && (from + 5) as int / 8 == i
        && (from + 6) as int / 8 == i && (from + 7) as int / 8 == i);
    assert((from + 0) % 8 == 0 && (from + 1) % 8 == 1 && (from + 2) % 8 == 2 && (from + 3) % 8 == 3
        && (from + 4) % 8 == 4 && (from + 5) % 8 == 5 && (from + 6) % 8 == 6 && (from + 7) % 8
        == 7);
    assert(b == (b / 128 % 2) * 128 + (b / 64 % 2) * 64 + (b / 32 % 2) * 32 + (b / 16 % 2) * 16 + (b
        / 8 % 2) * 8 + (b / 4 % 2) * 4 + (b / 2 % 2) * 2 + b / 1 % 2) by (bit_vector);
}

/// `BitReader::new`: the reader stands at the first bit of `bytes` and may
/// read all of them. The crate counts in bits, in 64-bit numbers, so the
/// bits of the slice must be countable so.
pub assume_specification<'a>[ BitReader::<'a>::new ](bytes: &'a [u8]) -> (reader: BitReader<'a>)
    requires
        bytes@.len() * 8 <= u64::MAX,
    ensures
        reader_bytes(reader) == bytes@,
        reader_position(reader) == 0,
        reader_limit(reader) == bytes@.len() * 8,
;

/// `BitReader::read_u8`: reads `bit_count` bits as one number, the first bit
/// being the most significant, and moves on by as many. It fails, and stays
/// where it is, where more than eight bits are asked for or fewer bits are
/// left. No bits are always read, as zero.
pub assume_specification<'a>[ BitReader::<'a>::read_u8 ](
    reader: &mut BitReader<'a>,
    bit_count: u8,
) -> (out: Result<u8, BitReaderError>)
    ensures
        reader_bytes(*final(reader)) == reader_bytes(*old(reader)),
        reader_limit(*final(reader)) == reader_limit(*old(reader)),
        out is Ok <==> bit_count == 0 || (bit_count <= 8 && reader_position(*old(reader))
            + bit_count <= reader_limit(*old(reader))),
        out is Ok ==> out->Ok_0 == bits_value(
            reader_bytes(*old(reader)),
            reader_position(*old(reader)),
            bit_count as nat,
        ) && reader_position(*final(reader)) == reader_position(*old(reader)) + bit_count,
        out is Err ==> reader_position(*final(reader)) == reader_position(*old(reader)),
;

/// `BitReader::read_u16`: as `read_u8`, for up to sixteen bits.
pub assume_specification<'a>[ BitReader::<'a>::read_u16 ](
    reader: &mut BitReader<'a>,
    bit_count: u8,
) -> (out: Result<u16, BitReaderError>)
    ensures
        reader_bytes(*final(reader)) == reader_bytes(*old(reader)),
        reader_limit(*final(reader)) == reader_limit(*old(reader)),
        out is Ok <==> bit_count == 0 || (bit_count <= 16 && reader_position(*old(reader))
            + bit_count <= reader_limit(*old(reader))),
        out is Ok ==> out->Ok_0 == bits_value(
            reader_bytes(*old(reader)),
            reader_position(*old(reader)),
            bit_count as nat,
        ) && reader_position(*final(reader)) == reader_position(*old(reader)) + bit_count,
        out is Err ==> reader_position(*final(reader)) == reader_position(*old(reader)),
;

/// `BitReader::read_bool`: reads one bit, true for 1, and moves on by one
/// bit. It fails, and stays where it is, where no bit is left.
pub assume_specification<'a>[ BitReader::<'a>::read_bool ](reader: &mut BitReader<'a>) -> (out:
    Result<bool, BitReaderError>)
    ensures
        reader_bytes(*final(reader)) == reader_bytes(*old(reader)),
        reader_limit(*final(reader)) == reader_limit(*old(reader)),
        out is Ok <==> reader_position(*old(reader)) + 1 <= reader_limit(*old(reader)),
        out is Ok ==> out->Ok_0 == (bit_of(
            reader_bytes(*old(reader)),
            reader_position(*old(reader)),
        ) == 1) && reader_position(*final(reader)) == reader_position(*old(reader)) + 1,
        out is Err ==> reader_position(*final(reader)) == reader_position(*old(reader)),
;

} // verus!
