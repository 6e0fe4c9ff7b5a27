//! Bit manipulation helpers and the ARM barrel shifter.
use vstd::prelude::*;

verus! {

/// The value of bit `index` of `x`, for an index below 32.
pub open spec fn bit32(x: u32, index: nat) -> bool {
    index < 32 && (x >> (index as u32)) & 1 == 1
}

/// The value of bit `index` of `x`, for an index below 16.
pub open spec fn bit16(x: u16, index: nat) -> bool {
    index < 16 && (x >> (index as u16)) & 1 == 1
}

/// The value of bit `index` of `x`, for an index below 8.
pub open spec fn bit8(x: u8, index: nat) -> bool {
    index < 8 && (x >> (index as u8)) & 1 == 1
}

/// Setting, clearing and testing single bits, at each width.
proof fn lemma_bits_all(x: u32, i: u32, j: u32, y: u16, k: u16, l: u16, z: u8, p: u8, q: u8)
    by (bit_vector)
    requires
        i < 32,
        j < 32,
        k < 16,
        l < 16,
        p < 8,
        q < 8,
    ensures
        ((x | (1u32 << i)) >> j) & 1 == (if j == i { 1u32 } else { (x >> j) & 1 }),
        ((x & !(1u32 << i)) >> j) & 1 == (if j == i { 0u32 } else { (x >> j) & 1 }),
        ((x & (1u32 << i)) != 0) == ((x >> i) & 1 == 1),
        (x >> j) & 1 == 0 || (x >> j) & 1 == 1,
        ((y | (1u16 << k)) >> l) & 1 == (if l == k { 1u16 } else { (y >> l) & 1 }),
        ((y & !(1u16 << k)) >> l) & 1 == (if l == k { 0u16 } else { (y >> l) & 1 }),
        ((y & (1u16 << k)) != 0) == ((y >> k) & 1 == 1),
        (y >> l) & 1 == 0 || (y >> l) & 1 == 1,
        ((z | (1u8 << p)) >> q) & 1 == (if q == p { 1u8 } else { (z >> q) & 1 }),
        ((z & !(1u8 << p)) >> q) & 1 == (if q == p { 0u8 } else { (z >> q) & 1 }),
        ((z & (1u8 << p)) != 0) == ((z >> p) & 1 == 1),
        (z >> q) & 1 == 0 || (z >> q) & 1 == 1,
{
}

proof fn lemma_bits32(x: u32, i: u32, j: u32)
    requires
        i < 32,
        j < 32,
    ensures
        ((x | (1u32 << i)) >> j) & 1 == (if j == i { 1u32 } else { (x >> j) & 1 }),
        ((x & !(1u32 << i)) >> j) & 1 == (if j == i { 0u32 } else { (x >> j) & 1 }),
        ((x & (1u32 << i)) != 0) == ((x >> i) & 1 == 1),
        (x >> j) & 1 == 0 || (x >> j) & 1 == 1,
{
    lemma_bits_all(x, i, j, 0, 0, 0, 0, 0, 0);
}

proof fn lemma_bits16(x: u16, i: u16, j: u16)
    requires
        i < 16,
        j < 16,
    ensures
        ((x | (1u16 << i)) >> j) & 1 == (if j == i { 1u16 } else { (x >> j) & 1 }),
        ((x & !(1u16 << i)) >> j) & 1 == (if j == i { 0u16 } else { (x >> j) & 1 }),
        ((x & (1u16 << i)) != 0) == ((x >> i) & 1 == 1),
        (x >> j) & 1 == 0 || (x >> j) & 1 == 1,
{
    lemma_bits_all(0, 0, 0, x, i, j, 0, 0, 0);
}

proof fn lemma_bits8(x: u8, i: u8, j: u8)
    requires
        i < 8,
        j < 8,
    ensures
        ((x | (1u8 << i)) >> j) & 1 == (if j == i { 1u8 } else { (x >> j) & 1 }),
        ((x & !(1u8 << i)) >> j) & 1 == (if j == i { 0u8 } else { (x >> j) & 1 }),
        ((x & (1u8 << i)) != 0) == ((x >> i) & 1 == 1),
        (x >> j) & 1 == 0 || (x >> j) & 1 == 1,
{
    lemma_bits_all(0, 0, 0, 0, 0, 0, x, i, j);
}

/// Single-bit operations on unsigned integers.
pub trait BitManipulation: Sized {
    /// Number of bits of the type.
    spec fn bit_width() -> nat;

    /// Whether bit `index` is set.
    spec fn bit_at(self, index: nat) -> bool;

    fn set_bit(self, index: usize) -> (r: Self)
        requires
            (index as nat) < Self::bit_width(),
        ensures
            r.bit_at(index as nat),
            forall|j: nat| j < Self::bit_width() && j != index ==> r.bit_at(j) == self.bit_at(j),
    ;

    fn clear_bit(self, index: usize) -> (r: Self)
        requires
            (index as nat) < Self::bit_width(),
        ensures
            !r.bit_at(index as nat),
            forall|j: nat| j < Self::bit_width() && j != index ==> r.bit_at(j) == self.bit_at(j),
    ;

    fn check_bit(self, index: usize) -> (r: bool)
        requires
            (index as nat) < Self::bit_width(),
        ensures
            r == self.bit_at(index as nat),
    ;

    fn eval_bit(self, index: usize, val: bool) -> (r: Self)
        requires
            (index as nat) < Self::bit_width(),
        ensures
            r.bit_at(index as nat) == val,
            forall|j: nat| j < Self::bit_width() && j != index ==> r.bit_at(j) == self.bit_at(j),
    ;

    fn toggle_bit(self, index: usize) -> (r: Self)
        requires
            (index as nat) < Self::bit_width(),
        ensures
            r.bit_at(index as nat) == !self.bit_at(index as nat),
            forall|j: nat| j < Self::bit_width() && j != index ==> r.bit_at(j) == self.bit_at(j),
    ;
}

impl BitManipulation for u8 {
    open spec fn bit_width() -> nat {
        8
    }

    open spec fn bit_at(self, index: nat) -> bool {
        bit8(self, index)
    }

    fn set_bit(self, index: usize) -> (r: u8)
        ensures
            r == self | (1u8 << index),
    {
        let r = self | (1u8 << index);
        proof {
            assert forall|j: nat| j < 8 implies bit8(r, j) == (j == index || bit8(self, j)) by {
                lemma_bits8(self, index as u8, j as u8);
            }
        }
        r
    }

    fn clear_bit(self, index: usize) -> (r: u8)
        ensures
            r == self & !(1u8 << index),
    {
        let r = self & !(1u8 << index);
        proof {
            assert forall|j: nat| j < 8 implies bit8(r, j) == (j != index && bit8(self, j)) by {
                lemma_bits8(self, index as u8, j as u8);
            }
        }
        r
    }

    fn check_bit(self, index: usize) -> (r: bool) {
        proof {
            lemma_bits8(self, index as u8, 0);
        }
        (self & (1u8 << index)) != 0
    }

    fn eval_bit(self, index: usize, val: bool) -> (r: u8)
        ensures
            r == (if val { self | (1u8 << index) } else { self & !(1u8 << index) }),
    {
        if val {
            self.set_bit(index)
        } else {
            self.clear_bit(index)
        }
    }

    fn toggle_bit(self, index: usize) -> (r: u8) {
        let c = self.check_bit(index);
        self.eval_bit(index, !c)
    }
}

impl BitManipulation for u16 {
    open spec fn bit_width() -> nat {
        16
    }

    open spec fn bit_at(self, index: nat) -> bool {
        bit16(self, index)
    }

    fn set_bit(self, index: usize) -> (r: u16)
        ensures
            r == self | (1u16 << index),
    {
        let r = self | (1u16 << index);
        proof {
            assert forall|j: nat| j < 16 implies bit16(r, j) == (j == index || bit16(self, j)) by {
                lemma_bits16(self, index as u16, j as u16);
            }
        }
        r
    }

    fn clear_bit(self, index: usize) -> (r: u16)
        ensures
            r == self & !(1u16 << index),
    {
        let r = self & !(1u16 << index);
        proof {
            assert forall|j: nat| j < 16 implies bit16(r, j) == (j != index && bit16(self, j)) by {
                lemma_bits16(self, index as u16, j as u16);
            }
        }
        r
    }

    fn check_bit(self, index: usize) -> (r: bool) {
        proof {
            lemma_bits16(self, index as u16, 0);
        }
        (self & (1u16 << index)) != 0
    }

    fn eval_bit(self, index: usize, val: bool) -> (r: u16)
        ensures
            r == (if val { self | (1u16 << index) } else { self & !(1u16 << index) }),
    {
        if val {
            self.set_bit(index)
        } else {
            self.clear_bit(index)
        }
    }

    fn toggle_bit(self, index: usize) -> (r: u16) {
        let c = self.check_bit(index);
        self.eval_bit(index, !c)
    }
}

impl BitManipulation for u32 {
    open spec fn bit_width() -> nat {
        32
    }

    open spec fn bit_at(self, index: nat) -> bool {
        bit32(self, index)
    }

    fn set_bit(self, index: usize) -> (r: u32)
        ensures
            r == self | (1u32 << index),
    {
        let r = self | (1u32 << index);
        proof {
            assert forall|j: nat| j < 32 implies bit32(r, j) == (j == index || bit32(self, j)) by {
                lemma_bits32(self, index as u32, j as u32);
            }
        }
        r
    }

    fn clear_bit(self, index: usize) -> (r: u32)
        ensures
            r == self & !(1u32 << index),
    {
        let r = self & !(1u32 << index);
        proof {
            assert forall|j: nat| j < 32 implies bit32(r, j) == (j != index && bit32(self, j)) by {
                lemma_bits32(self, index as u32, j as u32);
            }
        }
        r
    }

    fn check_bit(self, index: usize) -> (r: bool) {
        proof {
            lemma_bits32(self, index as u32, 0);
        }
        (self & (1u32 << index)) != 0
    }

    fn eval_bit(self, index: usize, val: bool) -> (r: u32)
        ensures
            r == (if val { self | (1u32 << index) } else { self & !(1u32 << index) }),
    {
        if val {
            self.set_bit(index)
        } else {
            self.clear_bit(index)
        }
    }

    fn toggle_bit(self, index: usize) -> (r: u32)
        ensures
            r == (if bit32(self, index as nat) { self & !(1u32 << index) } else { self | (1u32 << index) }),
    {
        if self.check_bit(index) {
            self.clear_bit(index)
        } else {
            self.set_bit(index)
        }
    }
}


/// Reinterprets little-endian bytes as 32-bit words (four bytes per word;
/// trailing bytes that do not fill a word are dropped).
pub trait SliceExtensions {
    fn as_u32_slice_mut(self) -> (r: Vec<u32>)
        ensures
            r@.len() == self.slice_len() / 4,
    ;

    /// Number of bytes in the slice.
    spec fn slice_len(self) -> nat;
}

/// Reinterprets 32-bit words as little-endian bytes (four bytes per word).
pub trait SliceExtensions8 {
    fn as_u8_slice_mut(self) -> (r: Vec<u8>)
        ensures
            r@.len() == 4 * self.word_len(),
    ;

    /// Number of words in the slice.
    spec fn word_len(self) -> nat;
}

/// The little-endian 32-bit word made of the four bytes of `b` from `i`.
pub open spec fn le_word(b: Seq<u8>, i: int) -> u32 {
    (b[i] as u32) | ((b[i + 1] as u32) << 8) | ((b[i + 2] as u32) << 16) | ((b[i + 3] as u32)
        << 24)
}

/// The little-endian 16-bit half-word made of the two bytes of `b` from `i`.
pub open spec fn le_half(b: Seq<u8>, i: int) -> u16 {
    (b[i] as u16) | ((b[i + 1] as u16) << 8)
}

/// `b` with the four bytes from `i` replaced by `v`, least significant first.
pub open spec fn write_le32(b: Seq<u8>, i: int, v: u32) -> Seq<u8> {
    b.update(i, (v & 0xff) as u8).update(i + 1, ((v >> 8u32) & 0xff) as u8).update(
        i + 2,
        ((v >> 16u32) & 0xff) as u8,
    ).update(i + 3, ((v >> 24u32) & 0xff) as u8)
}

/// `b` with the two bytes from `i` replaced by `v`, least significant first.
pub open spec fn write_le16(b: Seq<u8>, i: int, v: u16) -> Seq<u8> {
    b.update(i, (v & 0xff) as u8).update(i + 1, ((v >> 8u16) & 0xff) as u8)
}

/// Splitting a word or a half-word into its little-endian bytes and joining
/// them again gives it back.
pub proof fn lemma_le_bytes_join(v: u32, h: u16)
    by (bit_vector)
    ensures
        (((v & 0xff) as u8) as u32) | (((((v >> 8u32) & 0xff) as u8) as u32) << 8) | (((((v
            >> 16u32) & 0xff) as u8) as u32) << 16) | (((((v >> 24u32) & 0xff) as u8) as u32) << 24)
            == v,
        (((h & 0xff) as u8) as u16) | (((((h >> 8u16) & 0xff) as u8) as u16) << 8) == h,
        v >> 0u32 == v,
{
}

/// Bytes written by `write_le32` are read back by `le_word` from the same
/// place.
pub proof fn lemma_write_le32_read(b: Seq<u8>, i: int, v: u32)
    requires
        0 <= i,
        i + 4 <= b.len(),
    ensures
        le_word(write_le32(b, i, v), i) == v,
        write_le32(b, i, v).len() == b.len(),
{
    lemma_le_bytes_join(v, 0);
}

/// Bytes written by `write_le16` are read back by `le_half` from the same
/// place.
pub proof fn lemma_write_le16_read(b: Seq<u8>, i: int, h: u16)
    requires
        0 <= i,
        i + 2 <= b.len(),
    ensures
        le_half(write_le16(b, i, h), i) == h,
        write_le16(b, i, h).len() == b.len(),
{
    lemma_le_bytes_join(0, h);
}

/// Byte `k` (0 is the least significant) of a 32-bit word.
pub open spec fn byte_of(w: u32, k: int) -> u8 {
    ((w >> ((8 * k) as u32)) & 0xff) as u8
}

impl<'a> SliceExtensions for &'a [u8] {
    open spec fn slice_len(self) -> nat {
        self@.len()
    }

    fn as_u32_slice_mut(self) -> (r: Vec<u32>)
        ensures
            forall|i: int| 0 <= i < r@.len() ==> r@[i] == le_word(self@, 4 * i),
    {
        let n = self.len() / 4;
        let mut r: Vec<u32> = Vec::new();
        let mut i: usize = 0;
        while i < n
            invariant
                n == self@.len() / 4,
                i <= n,
                r@.len() == i,
                forall|k: int| 0 <= k < i ==> r@[k] == le_word(self@, 4 * k),
            decreases n - i,
        {
            let b = 4 * i;
            let w = (self[b] as u32) | ((self[b + 1] as u32) << 8) | ((self[b + 2] as u32) << 16)
                | ((self[b + 3] as u32) << 24);
            r.push(w);
            i = i + 1;
        }
        r
    }
}

impl<'a> SliceExtensions8 for &'a [u32] {
    open spec fn word_len(self) -> nat {
        self@.len()
    }

    fn as_u8_slice_mut(self) -> (r: Vec<u8>)
        ensures
            forall|i: int| 0 <= i < r@.len() ==> r@[i] == byte_of(self@[i / 4], i % 4),
    {
        let mut r: Vec<u8> = Vec::new();
        let mut i: usize = 0;
        while i < self.len()
            invariant
                i <= self@.len(),
                r@.len() == 4 * i,
                forall|k: int| 0 <= k < r@.len() ==> r@[k] == byte_of(self@[k / 4], k % 4),
            decreases self@.len() - i,
        {
            let w = self[i];
            r.push((w & 0xff) as u8);
            r.push(((w >> 8) & 0xff) as u8);
            r.push(((w >> 16) & 0xff) as u8);
            r.push(((w >> 24) & 0xff) as u8);
            proof {
                assert forall|k: int| 0 <= k < r@.len() implies r@[k] == byte_of(
                    self@[k / 4],
                    k % 4,
                ) by {
                    if k >= 4 * i {
                        assert(k / 4 == i as int);
                        lemma_le_bytes_join(w, 0);
                    }
                }
            }
            i = i + 1;
        }
        r
    }
}

/// The four shift operations of the ARM barrel shifter.
#[derive(Debug, Clone, Copy, PartialEq, Eq)]
pub enum ShiftType {
    Lsl,
    Lsr,
    Asr,
    Ror,
}

impl ShiftType {
    pub open spec fn from_u32_spec(value: u32) -> Option<ShiftType> {
        if value == 0 {
            Some(ShiftType::Lsl)
        } else if value == 1 {
            Some(ShiftType::Lsr)
        } else if value == 2 {
            Some(ShiftType::Asr)
        } else if value == 3 {
            Some(ShiftType::Ror)
        } else {
            None
        }
    }

    pub fn from_u32(value: u32) -> (r: Option<ShiftType>)
        ensures
            r == Self::from_u32_spec(value),
    {
        match value {
            0 => Some(ShiftType::Lsl),
            1 => Some(ShiftType::Lsr),
            2 => Some(ShiftType::Asr),
            3 => Some(ShiftType::Ror),
            _ => None,
        }
    }
}

/// Logical shift left by `amount`, as the ARM shifter does it: the result and
/// the carry out.
pub open spec fn lsl_spec(x: u32, amount: nat, carry: bool) -> (u32, bool) {
    if amount == 0 {
        (x, carry)
    } else if amount > 32 {
        (0, false)
    } else if amount == 32 {
        (0, bit32(x, 0))
    } else {
        (x << (amount as u32), bit32(x, (32 - amount) as nat))
    }
}

/// The shift amount that an immediate shift of zero encodes (32) for the
/// right shifts.
pub open spec fn effective_amount(amount: nat, immediate: bool) -> nat {
    if amount == 0 && immediate {
        32
    } else {
        amount
    }
}

/// Logical shift right: the result and the carry out.
pub open spec fn lsr_spec(x: u32, amount: nat, carry: bool, immediate: bool) -> (u32, bool) {
    let a = effective_amount(amount, immediate);
    if a == 0 {
        (x, carry)
    } else if a > 32 {
        (0, false)
    } else if a == 32 {
        (0, bit32(x, 31))
    } else {
        (x >> (a as u32), bit32(x, (a - 1) as nat))
    }
}

/// Arithmetic shift right (sign fill): the result and the carry out.
pub open spec fn asr_spec(x: u32, amount: nat, carry: bool, immediate: bool) -> (u32, bool) {
    let a = effective_amount(amount, immediate);
    if a == 0 {
        (x, carry)
    } else if a >= 32 {
        (if bit32(x, 31) { 0xFFFF_FFFFu32 } else { 0u32 }, bit32(x, 31))
    } else {
        (
            (x >> (a as u32)) | (if bit32(x, 31) { 0xFFFF_FFFFu32 << ((32 - a) as u32) } else { 0u32 }),
            bit32(x, (a - 1) as nat),
        )
    }
}

/// Rotate right; an immediate rotation by zero is a rotation through the
/// carry by one (RRX). A rotation by a non-zero multiple of 32 leaves the
/// value as it is.
pub open spec fn ror_spec(x: u32, amount: nat, carry: bool, immediate: bool) -> (u32, bool) {
    if amount != 0 || !immediate {
        if amount == 0 {
            (x, carry)
        } else {
            let a = amount % 32;
            let r = if a == 0 { x } else { (x >> (a as u32)) | (x << ((32 - a) as u32)) };
            (r, bit32(r, 31))
        }
    } else {
        ((x >> 1u32) | (if carry { 0x8000_0000u32 } else { 0u32 }), bit32(x, 0))
    }
}

/// The barrel shifter's result and carry for a shift of the given type.
pub open spec fn barrel_shift_spec(
    x: u32,
    shift_type: ShiftType,
    amount: nat,
    carry: bool,
    immediate: bool,
) -> (u32, bool) {
    match shift_type {
        ShiftType::Lsl => lsl_spec(x, amount, carry),
        ShiftType::Lsr => lsr_spec(x, amount, carry, immediate),
        ShiftType::Asr => asr_spec(x, amount, carry, immediate),
        ShiftType::Ror => ror_spec(x, amount, carry, immediate),
    }
}

proof fn lemma_shift_bits(x: u32, a: u32)
    by (bit_vector)
    requires
        0 < a < 32,
    ensures
        ((x << ((a - 1) as u32)) >> 31u32 != 0) == ((x >> ((32 - a) as u32)) & 1 == 1),
        (x & 1 != 0) == ((x >> 0u32) & 1 == 1),
        ((x >> 31u32) != 0) == ((x >> 31u32) & 1 == 1),
        ((x >> ((a - 1) as u32)) & 1 != 0) == ((x >> ((a - 1) as u32)) & 1 == 1),
        x >> 31u32 == 0 || x >> 31u32 == 1,
        0xFFFF_FFFFu32 * (x >> 31u32) == (if (x >> 31u32) & 1 == 1 { 0xFFFF_FFFFu32 } else { 0u32 }),
{
}

/// The ARM barrel shifter on 32-bit values.
pub trait BarrelShifter {
    fn barrel_shift(&self, shift_type: ShiftType, amount: usize, carry: &mut bool, immediate: bool) -> u32;

    fn lsl(&self, amount: usize, carry: &mut bool) -> u32;

    fn lsr(&self, amount: usize, carry: &mut bool, immediate: bool) -> u32;

    fn asr(&self, amount: usize, carry: &mut bool, immediate: bool) -> u32;

    fn ror(&self, amount: usize, carry: &mut bool, immediate: bool) -> u32;

    fn add_signed_offset(&self, offset: i32) -> u32;
}

impl BarrelShifter for u32 {
    fn barrel_shift(&self, shift_type: ShiftType, amount: usize, carry: &mut bool, immediate: bool) -> (r: u32)
        ensures
            (r, *final(carry)) == barrel_shift_spec(*self, shift_type, amount as nat, *old(carry), immediate),
    {
        match shift_type {
            ShiftType::Lsl => self.lsl(amount, carry),
            ShiftType::Lsr => self.lsr(amount, carry, immediate),
            ShiftType::Asr => self.asr(amount, carry, immediate),
            ShiftType::Ror => self.ror(amount, carry, immediate),
        }
    }

    fn lsl(&self, amount: usize, carry: &mut bool) -> (r: u32)
        ensures
            (r, *final(carry)) == lsl_spec(*self, amount as nat, *old(carry)),
    {
        let x = *self;
        if amount == 0 {
            return x;
        }
        if amount >= 32 {
            if amount > 32 {
                *carry = false;
            } else {
                proof {
                    lemma_shift_bits(x, 1);
                }
                *carry = (x & 1) != 0;
            }
            return 0;
        }
        proof {
            lemma_shift_bits(x, amount as u32);
        }
        *carry = ((x << ((amount - 1) as u32)) >> 31u32) != 0;
        x << (amount as u32)
    }

    fn lsr(&self, amount: usize, carry: &mut bool, immediate: bool) -> (r: u32)
        ensures
            (r, *final(carry)) == lsr_spec(*self, amount as nat, *old(carry), immediate),
    {
        let x = *self;
        let mut amount = amount;
        if amount == 0 {
            if immediate {
                amount = 32;
            } else {
                return x;
            }
        }
        if amount >= 32 {
            if amount > 32 {
                *carry = false;
            } else {
                proof {
                    lemma_shift_bits(x, 1);
                }
                *carry = (x >> 31u32) != 0;
            }
            return 0;
        }
        proof {
            lemma_shift_bits(x, amount as u32);
        }
        *carry = (x >> ((amount - 1) as u32)) & 1 != 0;
        x >> (amount as u32)
    }

    fn asr(&self, amount: usize, carry: &mut bool, immediate: bool) -> (r: u32)
        ensures
            (r, *final(carry)) == asr_spec(*self, amount as nat, *old(carry), immediate),
    {
        let x = *self;
        let mut amount = amount;
        if amount == 0 {
            if immediate {
                amount = 32;
            } else {
                return x;
            }
        }
        let msb = x >> 31u32;
        proof {
            lemma_shift_bits(x, 1);
        }
        if amount >= 32 {
            *carry = msb != 0;
            return 0xFFFF_FFFFu32 * msb;
        }
        proof {
            lemma_shift_bits(x, amount as u32);
        }
        *carry = ((x >> ((amount - 1) as u32)) & 1) != 0;
        let fill = if msb != 0 {
            0xFFFF_FFFFu32 << ((32 - amount) as u32)
        } else {
            0u32
        };
        (x >> (amount as u32)) | fill
    }

    fn ror(&self, amount: usize, carry: &mut bool, immediate: bool) -> (r: u32)
        ensures
            (r, *final(carry)) == ror_spec(*self, amount as nat, *old(carry), immediate),
    {
        let x = *self;
        if amount != 0 || !immediate {
            if amount == 0 {
                return x;
            }
            let a = amount % 32;
            let val = if a == 0 {
                x
            } else {
                (x >> (a as u32)) | (x << ((32 - a) as u32))
            };
            proof {
                lemma_shift_bits(val, 1);
            }
            *carry = (val >> 31u32) != 0;
            val
        } else {
            proof {
                lemma_shift_bits(x, 1);
            }
            let lsb = (x & 1) != 0;
            let val = (x >> 1u32) | (if *carry { 0x8000_0000u32 } else { 0u32 });
            *carry = lsb;
            val
        }
    }

    fn add_signed_offset(&self, offset: i32) -> (r: u32)
        ensures
            r as int == (*self as int + offset as int) % 0x1_0000_0000,
    {
        if offset >= 0 {
            self.wrapping_add(offset as u32)
        } else {
            let magnitude = (0i64 - (offset as i64)) as u32;
            self.wrapping_sub(magnitude)
        }
    }
}

/// Bit `i` of `x`.
pub open spec fn bit_of(x: u32, i: u32) -> bool {
    (x >> i) & 1 == 1
}

/// AND, EOR, ORR, AND-NOT and NOT, one bit at a time.
pub proof fn lemma_logic_bits(a: u32, b: u32, i: u32)
    by (bit_vector)
    requires
        i < 32,
    ensures
        ((a & b) >> i) & 1 == 1 <==> ((a >> i) & 1 == 1 && (b >> i) & 1 == 1),
        ((a ^ b) >> i) & 1 == 1 <==> ((a >> i) & 1 == 1) != ((b >> i) & 1 == 1),
        ((a | b) >> i) & 1 == 1 <==> ((a >> i) & 1 == 1 || (b >> i) & 1 == 1),
        ((a & !b) >> i) & 1 == 1 <==> ((a >> i) & 1 == 1 && (b >> i) & 1 != 1),
        ((!b) >> i) & 1 == 1 <==> (b >> i) & 1 != 1,
{
}

} // verus!
