//! Decompression of Yaz1 data, the LZ77 variant that packs the input region.
//!
//! A packed stream is a run of groups. A group opens with one byte of eight
//! control bits, used from the most significant one down. A set bit stands
//! for one literal byte. A clear bit stands for a back-reference of two or
//! three bytes: a distance of twelve bits and a length, which copy bytes that
//! were already written, possibly into the very bytes being written.

use vstd::prelude::*;
use crate::byte_handler::be_value;
use crate::byte_handler::lemma_be_value_unfold;

verus! {

/// The four bytes that open a Yaz1 container: "Yaz1".
pub open spec fn yaz1_magic() -> Seq<u8> {
    seq![0x59u8, 0x61u8, 0x7Au8, 0x31u8]
}

/// `out` with `count` more bytes, copied one by one from the place `back`
/// bytes before the end as it moves along. Where the copy is longer than
/// `back`, it runs into its own bytes: the last `back` bytes of `out` repeat.
pub open spec fn run_copied(out: Seq<u8>, back: int, count: nat) -> Seq<u8> {
    out + Seq::new(count, |i: int| out[out.len() - back + i % back])
}

/// What is left of a group's control bits after the first one is used.
pub open spec fn rest_of_group(group: u8) -> u8 {
    (group * 2 % 0x100) as u8
}

/// The distance that a back-reference with the bytes `first` and `second`
/// reaches back from the end of the output, less one.
pub open spec fn reference_distance(first: u8, second: u8) -> int {
    (first % 0x10) * 0x100 + second
}

/// The output of a packed stream, or `None` where the stream is broken.
///
/// `src` is read from `pos` on. `group` holds the control bits of the open
/// group, the next one on top, and `left` tells how many of them are unused.
/// `out` is what has been written so far, and `size` the length at which
/// decoding stops. A stream is broken where it ends inside a group, or where
/// a back-reference reaches before the first byte of the output.
pub open spec fn block_output(
    src: Seq<u8>,
    pos: int,
    group: u8,
    left: nat,
    out: Seq<u8>,
    size: nat,
) -> Option<Seq<u8>>
    decreases
            if out.len() < size {
                size - out.len()
            } else {
                0
            },
{
    if out.len() >= size {
        Some(out)
    } else if left == 0 && !(0 <= pos < src.len()) {
        None
    } else {
        let group = if left == 0 { src[pos] } else { group };
        let pos = if left == 0 { pos + 1 } else { pos };
        let left = if left == 0 { 8nat } else { left };
        if group >= 0x80 {
            if !(0 <= pos < src.len()) {
                None
            } else {
                block_output(
                    src,
                    pos + 1,
                    rest_of_group(group),
                    (left - 1) as nat,
                    out.push(src[pos]),
                    size,
                )
            }
        } else if !(0 <= pos && pos + 1 < src.len()) {
            None
        } else {
            let first = src[pos];
            let second = src[pos + 1];
            let long = first / 0x10 == 0;
            if long && pos + 2 >= src.len() {
                None
            } else {
                let count = if long { src[pos + 2] + 0x12 } else { first / 0x10 + 2 };
                let next = if long { pos + 3 } else { pos + 2 };
                let back = reference_distance(first, second) + 1;
                if back > out.len() {
                    None
                } else {
                    block_output(
                        src,
                        next,
                        rest_of_group(group),
                        (left - 1) as nat,
                        run_copied(out, back, count as nat),
                        size,
                    )
                }
            }
        }
    }
}

/// The contents of a Yaz1 container, or `None` where it is broken: where it
/// is shorter than its header of 16 bytes, does not open with the magic
/// bytes, holds a broken stream, or unpacks to another length than the one
/// it declares in bytes 4 to 7.
pub open spec fn yaz1_output(data: Seq<u8>) -> Option<Seq<u8>> {
    if data.len() < 16 || data.subrange(0, 4) != yaz1_magic() {
        None
    } else {
        let size = be_value(data.subrange(4, 8));
        match block_output(data, 16, 0, 0, Seq::empty(), size) {
            Some(out) => if out.len() == size {
                Some(out)
            } else {
                None
            },
            None => None,
        }
    }
}

/// What a stream unpacks to opens with what was written before, and is at
/// least as long as asked for: nothing is lost and nothing is cut off.
pub proof fn lemma_block_output_grows(
    src: Seq<u8>,
    pos: int,
    group: u8,
    left: nat,
    out: Seq<u8>,
    size: nat,
)
    requires
        block_output(src, pos, group, left, out, size) is Some,
    ensures
        ({
            let unpacked = block_output(src, pos, group, left, out, size)->Some_0;
            &&& unpacked.len() >= size
            &&& unpacked.len() >= out.len()
            &&& unpacked.subrange(0, out.len() as int) == out
        }),
    decreases
            if out.len() < size {
                size - out.len()
            } else {
                0
            },
{
    if out.len() >= size {
        assert(out.subrange(0, out.len() as int) =~= out);
    } else {
        let group = if left == 0 { src[pos] } else { group };
        let pos = if left == 0 { pos + 1 } else { pos };
        let left = if left == 0 { 8nat } else { left };
        if group >= 0x80 {
            let next = out.push(src[pos]);
            lemma_block_output_grows(
                src,
                pos + 1,
                rest_of_group(group),
                (left - 1) as nat,
                next,
                size,
            );
            let unpacked = block_output(
                src,
                pos + 1,
                rest_of_group(group),
                (left - 1) as nat,
                next,
                size,
            )->Some_0;
            assert(unpacked.subrange(0, out.len() as int) =~= unpacked.subrange(
                0,
                next.len() as int,
            ).subrange(0, out.len() as int));
            assert(next.subrange(0, out.len() as int) =~= out);
        } else {
            let first = src[pos];
            let second = src[pos + 1];
            let long = first / 0x10 == 0;
            let count = if long { src[pos + 2] + 0x12 } else { first / 0x10 + 2 };
            let after = if long { pos + 3 } else { pos + 2 };
            let back = reference_distance(first, second) + 1;
            let next = run_copied(out, back, count as nat);
            lemma_block_output_grows(
                src,
                after,
                rest_of_group(group),
                (left - 1) as nat,
                next,
                size,
            );
            let unpacked = block_output(
                src,
                after,
                rest_of_group(group),
                (left - 1) as nat,
                next,
                size,
            )->Some_0;
            assert(unpacked.subrange(0, out.len() as int) =~= unpacked.subrange(
                0,
                next.len() as int,
            ).subrange(0, out.len() as int));
            assert(next.subrange(0, out.len() as int) =~= out);
        }
    }
}

/// What a container unpacks to has exactly the length that the container
/// declares.
pub proof fn lemma_yaz1_output_length(data: Seq<u8>)
    requires
        yaz1_output(data) is Some,
    ensures
        data.len() >= 16,
        yaz1_output(data)->Some_0.len() == be_value(data.subrange(4, 8)),
{
}

/// Unpacks the stream that starts at `offset` in `src` until the output has
/// at least `uncompressed_size` bytes. The last back-reference may carry the
/// output past that size.
pub fn decompress_block(src: &[u8], offset: usize, uncompressed_size: usize) -> (r: Option<
    Vec<u8>,
>)
    ensures
        match r {
            Some(out) => block_output(
                src@,
                offset as int,
                0,
                0,
                Seq::empty(),
                uncompressed_size as nat,
            ) == Some(out@),
            None => block_output(src@, offset as int, 0, 0, Seq::empty(), uncompressed_size as nat)
                is None,
        },
{
    let ghost goal = block_output(
        src@,
        offset as int,
        0,
        0,
        Seq::empty(),
        uncompressed_size as nat,
    );
    let mut dst: Vec<u8> = Vec::new();
    let mut src_pos: usize = offset;
    let mut valid_bit_count: u8 = 0;
    let mut curr_code_byte: u8 = 0;

    while dst.len() < uncompressed_size
        invariant
            valid_bit_count <= 8,
            goal == block_output(
                src@,
                offset as int,
                0,
                0,
                Seq::empty(),
                uncompressed_size as nat,
            ),
            goal == block_output(
                src@,
                src_pos as int,
                curr_code_byte,
                valid_bit_count as nat,
                dst@,
                uncompressed_size as nat,
            ),
        decreases
                if dst.len() < uncompressed_size {
                    uncompressed_size - dst.len()
                } else {
                    0
                },
    {
        // Open a new group once the control bits of the last one are used up
        if valid_bit_count == 0 {
            if src_pos >= src.len() {
                return None;
            }
            curr_code_byte = src[src_pos];
            src_pos += 1;
            valid_bit_count = 8;
        }
        let ghost group = curr_code_byte;

        if curr_code_byte >= 0x80 {
            // A literal byte
            if src_pos >= src.len() {
                return None;
            }
            dst.push(src[src_pos]);
            src_pos += 1;
        } else {
            // A back-reference
            if src_pos >= src.len() || src_pos + 1 >= src.len() {
                return None;
            }
            let byte1 = src[src_pos];
            let byte2 = src[src_pos + 1];
            src_pos += 2;

            let dist: usize = (byte1 % 0x10) as usize * 0x100 + byte2 as usize;
            let mut num_bytes: usize = (byte1 / 0x10) as usize;
            if num_bytes == 0 {
                if src_pos >= src.len() {
                    return None;
                }
                num_bytes = src[src_pos] as usize + 0x12;
                src_pos += 1;
            } else {
                num_bytes += 2;
            }
            if dist + 1 > dst.len() {
                return None;
            }
            let copy_source: usize = dst.len() - (dist + 1);

            // One byte at a time: the source may run into what this copy writes
            let ghost before = dst@;
            let mut i: usize = 0;
            while i < num_bytes
                invariant
                    i <= num_bytes,
                    copy_source + dist + 1 == before.len(),
                    dst@.len() == before.len() + i,
                    dst@ == run_copied(before, dist + 1, i as nat),
                decreases num_bytes - i,
            {
                proof {
                    let back: int = dist + 1;
                    let i: int = i as int;
                    if i >= back {
                        vstd::arithmetic::div_mod::lemma_mod_sub_multiples_vanish(i, back);
                        assert((i - back) % back == i % back);
                        vstd::arithmetic::div_mod::lemma_mod_bound(i - back, back);
                    } else {
                        vstd::arithmetic::div_mod::lemma_small_mod(i as nat, back as nat);
                    }
                }
                assert(copy_source + i < dst.len());
                let byte = dst[copy_source + i];
                dst.push(byte);
                i += 1;
                proof {
                    assert(dst@ =~= run_copied(before, dist + 1, i as nat));
                }
            }
        }

        // Move on to the next control bit
        proof {
            assert(curr_code_byte * 2 % 0x100 == rest_of_group(group));
        }
        curr_code_byte = ((curr_code_byte as u16 * 2) % 0x100) as u8;
        valid_bit_count -= 1;
    }

    Some(dst)
}

/// Unpacks a Yaz1 container: the magic bytes, the unpacked length as a
/// big-endian number, eight more bytes of header, and the packed stream.
pub fn yaz1_decompress(data: &[u8]) -> (r: Option<Vec<u8>>)
    ensures
        match r {
            Some(out) => yaz1_output(data@) == Some(out@),
            None => yaz1_output(data@) is None,
        },
{
    if data.len() < 16 {
        return None;
    }
    if data[0] != 0x59 || data[1] != 0x61 || data[2] != 0x7A || data[3] != 0x31 {
        proof {
            let head = data@.subrange(0, 4);
            assert(head[0] == data@[0] && head[1] == data@[1] && head[2] == data@[2] && head[3]
                == data@[3]);
        }
        return None;
    }
    proof {
        assert(data@.subrange(0, 4) =~= yaz1_magic());
        let field = data@.subrange(4, 8);
        lemma_be_value_unfold(field);
    }
    let size: u32 = data[4] as u32 * 0x100_0000 + data[5] as u32 * 0x1_0000 + data[6] as u32
        * 0x100 + data[7] as u32;
    let uncompressed_size: usize = size as usize;

    match decompress_block(data, 16, uncompressed_size) {
        Some(out) => {
            if out.len() == uncompressed_size {
                Some(out)
            } else {
                None
            }
        },
        None => None,
    }
}

} // verus!
