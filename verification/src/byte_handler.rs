//! A bit-field view over one to four bytes.
//!
//! The bytes are read most significant first into one 32-bit word, whatever the
//! byte order of the machine. Shorter inputs are padded with zero bytes in
//! front, so the last source byte always occupies the lowest eight bits. Every
//! field of the file format is then taken out of such a word by shifting and
//! masking.

use vstd::prelude::*;
use vstd::arithmetic::power2::pow2;
use vstd::arithmetic::power2::lemma2_to64;
use vstd::arithmetic::power2::lemma_pow2_strictly_increases;
use vstd::arithmetic::power2::lemma_pow2_pos;
use vstd::bits::lemma_u32_shr_is_div;
use vstd::std_specs::convert::FromSpecImpl;
use vstd::std_specs::convert::TryFromSpecImpl;

verus! {

#[derive(Clone, Copy, Debug, PartialEq, Eq, Structural)]
pub enum ByteHandlerError {
    /// More than four bytes were given.
    ConversionErrorTooLong,
}

/// The value of `bytes` read as one big-endian number.
pub open spec fn be_value(bytes: Seq<u8>) -> nat
    decreases bytes.len(),
{
    if bytes.len() == 0 {
        0
    } else {
        be_value(bytes.drop_last()) * 256 + bytes.last() as nat
    }
}

/// The word that a view over the bytes of `data` from `from` up to `to`
/// holds.
pub open spec fn view_over(data: Seq<u8>, from: int, to: int) -> u32 {
    be_value(data.subrange(from, to)) as u32
}

/// The byte of `word` at position `idx`, counted from the most significant
/// end; zero for a position that the word does not have.
pub open spec fn byte_at(word: u32, idx: int) -> u8 {
    if idx == 0 {
        (word / 0x100_0000) as u8
    } else if idx == 1 {
        (word / 0x1_0000 % 0x100) as u8
    } else if idx == 2 {
        (word / 0x100 % 0x100) as u8
    } else if idx == 3 {
        (word % 0x100) as u8
    } else {
        0
    }
}

/// The 16-bit half of `word` at position `idx`, counted from the most
/// significant end; zero for a position that the word does not have.
pub open spec fn word_at(word: u32, idx: int) -> u16 {
    if idx == 0 {
        (word / 0x1_0000) as u16
    } else if idx == 1 {
        (word % 0x1_0000) as u16
    } else {
        0
    }
}

/// Whether bit `n` of `word` is set, bit 0 being the least significant one;
/// false for a bit that the word does not have.
pub open spec fn bit_at(word: u32, n: int) -> bool {
    0 <= n < 32 && word as nat / pow2(n as nat) % 2 == 1
}

/// The field of `width` bits of `word` whose lowest bit is bit `low`, as a
/// number.
pub open spec fn field_at(word: u32, low: nat, width: nat) -> nat {
    word as nat / pow2(low) % pow2(width)
}

/// `word` moved right by `d` bits; the bits that fall off are lost.
pub open spec fn shifted_right(word: u32, d: nat) -> u32 {
    (word as nat / pow2(d)) as u32
}

/// `word` moved left by `d` bits; the bits that leave the 32-bit word are lost.
pub open spec fn shifted_left(word: u32, d: nat) -> u32 {
    (word as nat * pow2(d) % 0x1_0000_0000) as u32
}

#[derive(Clone, Copy, Debug)]
pub struct ByteHandler {
    /// The normalized word.
    pub dword: u32,
}

impl View for ByteHandler {
    type V = u32;

    open spec fn view(&self) -> u32 {
        self.dword
    }
}

impl ByteHandler {
    /// Reads up to four bytes, most significant first. No byte at all gives
    /// the zero word; more than four bytes are refused.
    pub fn from_bytes(value: &[u8]) -> (r: Result<ByteHandler, ByteHandlerError>)
        ensures
            value@.len() <= 4 ==> r is Ok && r->Ok_0@ == be_value(value@),
            value@.len() > 4 ==> r == Err::<ByteHandler, _>(
                ByteHandlerError::ConversionErrorTooLong,
            ),
    {
        if value.len() > 4 {
            return Err(ByteHandlerError::ConversionErrorTooLong);
        }
        let mut dword: u32 = 0;
        let mut i: usize = 0;
        while i < value.len()
            invariant
                i <= value@.len() <= 4,
                dword == be_value(value@.take(i as int)),
                i == 0 ==> dword == 0,
                i == 1 ==> dword < 0x100,
                i == 2 ==> dword < 0x1_0000,
                i == 3 ==> dword < 0x100_0000,
            decreases value@.len() - i,
        {
            proof {
                assert(value@.take(i + 1).drop_last() =~= value@.take(i as int));
            }
            dword = dword * 256 + value[i] as u32;
            i += 1;
        }
        proof {
            assert(value@.take(i as int) =~= value@);
        }
        Ok(ByteHandler { dword })
    }

    /// The view over the bytes of `data` from `from` up to `to`, at most
    /// four.
    pub fn over(data: &[u8], from: usize, to: usize) -> (r: ByteHandler)
        requires
            from <= to <= data@.len(),
            to - from <= 4,
        ensures
            r@ == view_over(data@, from as int, to as int),
    {
        proof {
            lemma_be_value_unfold(data@.subrange(from as int, to as int));
        }
        match ByteHandler::from_bytes(vstd::slice::slice_subrange(data, from, to)) {
            Ok(handler) => handler,
            Err(_) => {
                // not reached: there are no more than four bytes
                assert(false);
                ByteHandler { dword: 0 }
            },
        }
    }

    pub fn copy_dword(self) -> (r: u32)
        ensures
            r == self@,
    {
        self.dword
    }

    pub fn copy_word(self, idx: usize) -> (r: u16)
        ensures
            r == word_at(self@, idx as int),
    {
        if idx > 1 {
            return 0;
        }
        if idx == 0 {
            (self.dword / 0x1_0000) as u16
        } else {
            (self.dword % 0x1_0000) as u16
        }
    }

    pub fn copy_byte(self, idx: usize) -> (r: u8)
        ensures
            r == byte_at(self@, idx as int),
    {
        if idx > 3 {
            return 0;
        }
        if idx == 0 {
            (self.dword / 0x100_0000) as u8
        } else if idx == 1 {
            (self.dword / 0x1_0000 % 0x100) as u8
        } else if idx == 2 {
            (self.dword / 0x100 % 0x100) as u8
        } else {
            (self.dword % 0x100) as u8
        }
    }

    pub fn shift_right(&mut self, d: u8)
        ensures
            final(self)@ == shifted_right(old(self)@, d as nat),
    {
        if d >= 32 {
            proof {
                lemma2_to64();
                if d > 32 {
                    lemma_pow2_strictly_increases(32, d as nat);
                }
                vstd::arithmetic::div_mod::lemma_basic_div(
                    self.dword as int,
                    pow2(d as nat) as int,
                );
            }
            self.dword = 0;
        } else {
            proof {
                lemma_u32_shr_is_div(self.dword, d as u32);
            }
            self.dword = self.dword >> (d as u32);
        }
    }

    pub fn shift_left(&mut self, d: u8)
        ensures
            final(self)@ == shifted_left(old(self)@, d as nat),
    {
        if d >= 32 {
            proof {
                lemma_shift_left_out(self.dword, d as nat);
            }
            self.dword = 0;
        } else {
            proof {
                lemma_shift_left_in(self.dword, d as u32);
            }
            self.dword = self.dword << (d as u32);
        }
    }

    /// Reads the field of `width` bits whose lowest bit is bit `low`, counted
    /// from the right and from 0.
    pub fn copy_bits(self, low: u8, width: u8) -> (r: u32)
        ensures
            r == field_at(self@, low as nat, width as nat),
            r < pow2(width as nat),
    {
        proof {
            lemma2_to64();
            lemma_pow2_pos(low as nat);
            lemma_pow2_pos(width as nat);
            vstd::arithmetic::div_mod::lemma_mod_bound(
                self.dword as int / pow2(low as nat) as int,
                pow2(width as nat) as int,
            );
        }
        if low >= 32 {
            proof {
                if low > 32 {
                    lemma_pow2_strictly_increases(32, low as nat);
                }
                vstd::arithmetic::div_mod::lemma_basic_div(
                    self.dword as int,
                    pow2(low as nat) as int,
                );
                vstd::arithmetic::div_mod::lemma_small_mod(0, pow2(width as nat));
            }
            return 0;
        }
        proof {
            lemma_u32_shr_is_div(self.dword, low as u32);
        }
        let moved: u32 = self.dword >> (low as u32);
        if width >= 32 {
            proof {
                if width > 32 {
                    lemma_pow2_strictly_increases(32, width as nat);
                }
                vstd::arithmetic::div_mod::lemma_small_mod(moved as nat, pow2(width as nat));
            }
            return moved;
        }
        proof {
            vstd::bits::lemma_u32_pow2_no_overflow(width as nat);
            vstd::bits::lemma_u32_shl_is_mul(1, width as u32);
        }
        moved % (1u32 << (width as u32))
    }

    /// Reads bit `d`, counted from the right and from 0.
    pub fn read_bool(&self, d: u8) -> (r: bool)
        ensures
            r == bit_at(self@, d as int),
    {
        if d >= 32 {
            return false;
        }
        proof {
            lemma_u32_shr_is_div(self.dword, d as u32);
            let s = self.dword >> (d as u32);
            assert(s & 1 == s % 2) by (bit_vector);
        }
        (self.dword >> (d as u32)) & 1 != 0
    }
}


impl TryFrom<&[u8]> for ByteHandler {
    type Error = ByteHandlerError;

    fn try_from(value: &[u8]) -> (r: Result<Self, Self::Error>) {
        ByteHandler::from_bytes(value)
    }
}

impl TryFromSpecImpl<&[u8]> for ByteHandler {
    open spec fn obeys_try_from_spec() -> bool {
        true
    }

    open spec fn try_from_spec(value: &[u8]) -> Result<Self, Self::Error> {
        if value@.len() <= 4 {
            Ok(ByteHandler { dword: be_value(value@) as u32 })
        } else {
            Err(ByteHandlerError::ConversionErrorTooLong)
        }
    }
}

impl From<[u8; 4]> for ByteHandler {
    fn from(value: [u8; 4]) -> (r: ByteHandler) {
        proof {
            lemma_be_value_unfold(value@);
        }
        ByteHandler {
            dword: value[0] as u32 * 0x100_0000 + value[1] as u32 * 0x1_0000 + value[2] as u32
                * 0x100 + value[3] as u32,
        }
    }
}

impl FromSpecImpl<[u8; 4]> for ByteHandler {
    open spec fn obeys_from_spec() -> bool {
        true
    }

    open spec fn from_spec(value: [u8; 4]) -> ByteHandler {
        ByteHandler { dword: be_value(value@) as u32 }
    }
}

impl From<[u8; 3]> for ByteHandler {
    fn from(value: [u8; 3]) -> (r: ByteHandler) {
        proof {
            lemma_be_value_unfold(value@);
        }
        ByteHandler {
            dword: value[0] as u32 * 0x1_0000 + value[1] as u32 * 0x100 + value[2] as u32,
        }
    }
}

impl FromSpecImpl<[u8; 3]> for ByteHandler {
    open spec fn obeys_from_spec() -> bool {
        true
    }

    open spec fn from_spec(value: [u8; 3]) -> ByteHandler {
        ByteHandler { dword: be_value(value@) as u32 }
    }
}

impl From<[u8; 2]> for ByteHandler {
    fn from(value: [u8; 2]) -> (r: ByteHandler) {
        proof {
            lemma_be_value_unfold(value@);
        }
        ByteHandler { dword: value[0] as u32 * 0x100 + value[1] as u32 }
    }
}

impl FromSpecImpl<[u8; 2]> for ByteHandler {
    open spec fn obeys_from_spec() -> bool {
        true
    }

    open spec fn from_spec(value: [u8; 2]) -> ByteHandler {
        ByteHandler { dword: be_value(value@) as u32 }
    }
}

impl From<[u16; 2]> for ByteHandler {
    fn from(value: [u16; 2]) -> (r: ByteHandler) {
        ByteHandler { dword: value[0] as u32 * 0x1_0000 + value[1] as u32 }
    }
}

impl FromSpecImpl<[u16; 2]> for ByteHandler {
    open spec fn obeys_from_spec() -> bool {
        true
    }

    open spec fn from_spec(value: [u16; 2]) -> ByteHandler {
        ByteHandler { dword: (value[0] * 0x1_0000 + value[1]) as u32 }
    }
}

impl From<u8> for ByteHandler {
    fn from(value: u8) -> (r: ByteHandler) {
        ByteHandler { dword: value as u32 }
    }
}

impl FromSpecImpl<u8> for ByteHandler {
    open spec fn obeys_from_spec() -> bool {
        true
    }

    open spec fn from_spec(value: u8) -> ByteHandler {
        ByteHandler { dword: value as u32 }
    }
}

impl From<u16> for ByteHandler {
    fn from(value: u16) -> (r: ByteHandler) {
        ByteHandler { dword: value as u32 }
    }
}

impl FromSpecImpl<u16> for ByteHandler {
    open spec fn obeys_from_spec() -> bool {
        true
    }

    open spec fn from_spec(value: u16) -> ByteHandler {
        ByteHandler { dword: value as u32 }
    }
}

impl From<u32> for ByteHandler {
    fn from(value: u32) -> (r: ByteHandler) {
        ByteHandler { dword: value }
    }
}

impl FromSpecImpl<u32> for ByteHandler {
    open spec fn obeys_from_spec() -> bool {
        true
    }

    open spec fn from_spec(value: u32) -> ByteHandler {
        ByteHandler { dword: value }
    }
}


/// The big-endian value of `bytes`, written out for up to four of them.
pub proof fn lemma_be_value_unfold(bytes: Seq<u8>)
    requires
        bytes.len() <= 4,
    ensures
        bytes.len() == 0 ==> be_value(bytes) == 0,
        bytes.len() == 1 ==> be_value(bytes) == bytes[0],
        bytes.len() == 2 ==> be_value(bytes) == bytes[0] * 0x100 + bytes[1],
        bytes.len() == 3 ==> be_value(bytes) == bytes[0] * 0x1_0000 + bytes[1] * 0x100 + bytes[2],
        bytes.len() == 4 ==> be_value(bytes) == bytes[0] * 0x100_0000 + bytes[1] * 0x1_0000
            + bytes[2] * 0x100 + bytes[3],
        be_value(bytes) <= u32::MAX,
{
    reveal_with_fuel(be_value, 5);
    let a = bytes.drop_last();
    let b = a.drop_last();
    let c = b.drop_last();
    if bytes.len() >= 2 {
        assert(a.last() == bytes[bytes.len() - 2]);
    }
    if bytes.len() >= 3 {
        assert(b.last() == bytes[bytes.len() - 3]);
    }
    if bytes.len() >= 4 {
        assert(c.last() == bytes[bytes.len() - 4]);
    }
}

/// Reading a view back byte by byte gives the source bytes: they stand, in
/// their order, in the last positions of the word, behind zero bytes.
pub proof fn lemma_bytes_read_back(bytes: Seq<u8>, i: int)
    requires
        bytes.len() <= 4,
        0 <= i < 4,
    ensures
        i >= 4 - bytes.len() ==> byte_at(be_value(bytes) as u32, i) == bytes[i - (4 - bytes.len())],
        i < 4 - bytes.len() ==> byte_at(be_value(bytes) as u32, i) == 0,
{
    lemma_be_value_unfold(bytes);
    let pad = 4 - bytes.len();
    let b0: u8 = if pad <= 0 { bytes[0 - pad] } else { 0 };
    let b1: u8 = if pad <= 1 { bytes[1 - pad] } else { 0 };
    let b2: u8 = if pad <= 2 { bytes[2 - pad] } else { 0 };
    let b3: u8 = if pad <= 3 { bytes[3 - pad] } else { 0 };
    lemma_word_split(b0, b1, b2, b3);
}

proof fn lemma_word_split(b0: u8, b1: u8, b2: u8, b3: u8)
    ensures
        ({
            let word = (b0 * 0x100_0000 + b1 * 0x1_0000 + b2 * 0x100 + b3) as u32;
            &&& byte_at(word, 0) == b0
            &&& byte_at(word, 1) == b1
            &&& byte_at(word, 2) == b2
            &&& byte_at(word, 3) == b3
        }),
{
    let word = b0 * 0x100_0000 + b1 * 0x1_0000 + b2 * 0x100 + b3;
    vstd::arithmetic::div_mod::lemma_fundamental_div_mod_converse(
        word,
        0x100_0000,
        b0 as int,
        b1 * 0x1_0000 + b2 * 0x100 + b3,
    );
    vstd::arithmetic::div_mod::lemma_fundamental_div_mod_converse(
        word,
        0x1_0000,
        b0 * 0x100 + b1,
        b2 * 0x100 + b3,
    );
    vstd::arithmetic::div_mod::lemma_fundamental_div_mod_converse(
        b0 * 0x100 + b1,
        0x100,
        b0 as int,
        b1 as int,
    );
    vstd::arithmetic::div_mod::lemma_fundamental_div_mod_converse(
        word,
        0x100,
        b0 * 0x1_0000 + b1 * 0x100 + b2,
        b3 as int,
    );
    vstd::arithmetic::div_mod::lemma_fundamental_div_mod_converse(
        b0 * 0x1_0000 + b1 * 0x100 + b2,
        0x100,
        b0 * 0x100 + b1,
        b2 as int,
    );
}

/// Each 16-bit half of a word is made of the two bytes at its place.
pub proof fn lemma_word_of_bytes(word: u32, idx: int)
    requires
        0 <= idx <= 1,
    ensures
        word_at(word, idx) == byte_at(word, 2 * idx) * 0x100 + byte_at(word, 2 * idx + 1),
{
    assert(word / 0x1_0000 == (word / 0x100_0000) * 0x100 + word / 0x1_0000 % 0x100
        && word % 0x1_0000 == (word / 0x100 % 0x100) * 0x100 + word % 0x100 && word / 0x100_0000
        < 0x100) by (bit_vector);
}

/// Bit `n` of a view is bit `n % 8` of the source byte that stands `n / 8`
/// places before the last one; the bits above the source bytes are clear.
pub proof fn lemma_bits_read_back(bytes: Seq<u8>, n: int)
    requires
        bytes.len() <= 4,
        0 <= n < 32,
    ensures
        n < 8 * bytes.len() ==> bit_at(be_value(bytes) as u32, n) == (bytes[bytes.len() - 1 - n / 8]
            as nat / pow2((n % 8) as nat) % 2 == 1),
        n >= 8 * bytes.len() ==> !bit_at(be_value(bytes) as u32, n),
{
    lemma_be_value_unfold(bytes);
    let word = be_value(bytes) as u32;
    lemma_bit_of_byte(word, n as u32);
    lemma_bytes_read_back(bytes, 3 - n / 8);
    if n >= 8 * bytes.len() {
        lemma2_to64();
        assert(0nat / pow2((n % 8) as nat) == 0) by {
            lemma_pow2_pos((n % 8) as nat);
            vstd::arithmetic::div_mod::lemma_basic_div(0, pow2((n % 8) as nat) as int);
        }
    }
}

/// Indices outside the word give zero.
pub proof fn lemma_out_of_range(word: u32, idx: int)
    ensures
        idx < 0 || idx > 3 ==> byte_at(word, idx) == 0,
        idx < 0 || idx > 1 ==> word_at(word, idx) == 0,
        idx < 0 || idx > 31 ==> !bit_at(word, idx),
{
}

proof fn lemma_bit_of_byte(word: u32, n: u32)
    requires
        n < 32,
    ensures
        word as nat / pow2(n as nat) % 2 == byte_at(word, 3 - (n / 8) as int) as nat / pow2(
            (n % 8) as nat,
        ) % 2,
{
    lemma2_to64();
    let k: u32 = n / 8;
    let r: u32 = n % 8;
    let lane: u32 = (word >> (8 * k)) & 0xFF;
    assert(((word >> n) & 1) == ((lane >> r) & 1)) by (bit_vector)
        requires
            n < 32,
            k == n / 8,
            r == n % 8,
            lane == (word >> (8 * k)) & 0xFF,
    ;
    lemma_u32_shr_is_div(word, n);
    lemma_u32_shr_is_div(word, (8 * k) as u32);
    lemma_u32_shr_is_div(lane, r);
    let moved: u32 = word >> n;
    let lane_moved: u32 = lane >> r;
    assert(moved & 1 == moved % 2) by (bit_vector);
    assert(lane_moved & 1 == lane_moved % 2) by (bit_vector);
    let whole: u32 = word >> (8 * k);
    assert(whole & 0xFF == whole % 0x100) by (bit_vector);
    let divisor = pow2((8 * k) as nat);
    assert(whole == word as nat / divisor);
    if k == 0 {
        assert(divisor == 1);
        assert(word as nat / divisor == word as nat / 1);
        assert(whole == word);
        assert(lane == word % 0x100);
    } else if k == 1 {
        assert(divisor == 0x100);
        assert(word as nat / divisor == word as nat / 0x100);
        assert(whole == word / 0x100);
    } else if k == 2 {
        assert(divisor == 0x1_0000);
        assert(word as nat / divisor == word as nat / 0x1_0000);
        assert(whole == word / 0x1_0000);
    } else {
        assert(k == 3);
        assert(divisor == 0x100_0000);
        assert(word as nat / divisor == word as nat / 0x100_0000);
        assert(whole == word / 0x100_0000);
        assert(whole < 0x100);
    }
    assert(lane == byte_at(word, 3 - k as int));
}

proof fn lemma_shift_left_out(word: u32, d: nat)
    requires
        d >= 32,
    ensures
        shifted_left(word, d) == 0,
{
    lemma2_to64();
    vstd::arithmetic::power2::lemma_pow2_adds(32, (d - 32) as nat);
    assert(pow2(d) == 0x1_0000_0000 * pow2((d - 32) as nat));
    let k = word as nat * pow2((d - 32) as nat);
    assert(word as nat * pow2(d) == 0x1_0000_0000 * k) by (nonlinear_arith)
        requires
            pow2(d) == 0x1_0000_0000 * pow2((d - 32) as nat),
            k == word as nat * pow2((d - 32) as nat),
    ;
    vstd::arithmetic::div_mod::lemma_mod_multiples_basic(k as int, 0x1_0000_0000);
    assert((0x1_0000_0000 * k) % 0x1_0000_0000 == 0) by (nonlinear_arith)
        requires
            (k as int * 0x1_0000_0000) % 0x1_0000_0000 == 0,
    ;
}

proof fn lemma_shift_left_in(word: u32, d: u32)
    requires
        d < 32,
    ensures
        word << d == shifted_left(word, d as nat),
{
    lemma2_to64();
    if d == 0 {
        assert(word << 0 == word) by (bit_vector);
    } else {
        let keep: u32 = word & (0xFFFF_FFFFu32 >> d);
        assert(word << d == keep << d) by (bit_vector)
            requires
                keep == word & (0xFFFF_FFFFu32 >> d),
                d < 32,
        ;
        let width = (32 - d) as nat;
        vstd::bits::lemma_u32_low_bits_mask_is_mod(word, width);
        vstd::bits::lemma_u32_shr_is_div(0xFFFF_FFFFu32, d);
        vstd::arithmetic::power2::lemma_pow2_adds(d as nat, width);
        lemma_pow2_pos(d as nat);
        lemma_pow2_pos(width);
        let p = pow2(d as nat);
        let q = pow2(width);
        assert(p * q == 0x1_0000_0000);
        // what is left of all ones after the shift is the mask of the low `width` bits
        assert(0xFFFF_FFFFu32 >> d == vstd::bits::low_bits_mask(width) as u32) by {
            assert(0xFFFF_FFFFint / (p as int) == q - 1) by (nonlinear_arith)
                requires
                    p * q == 0x1_0000_0000,
                    p > 0,
                    q > 0,
            ;
        }
        assert(keep == word as nat % q);
        assert(keep * p <= 0xFFFF_FFFF) by (nonlinear_arith)
            requires
                keep < q,
                p * q == 0x1_0000_0000,
                p > 0,
        ;
        vstd::bits::lemma_u32_shl_is_mul(keep, d);
        vstd::arithmetic::div_mod::lemma_truncate_middle(word as int, p as int, q as int);
    }
}

} // verus!
