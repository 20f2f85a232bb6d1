//! Fixed-size scalars modeled by their little-endian byte sequence.
//!
//! Every payload type the wrapper accepts implements [`Scalar`]. The model
//! of a value is the sequence of its bytes from least to most significant;
//! byte reversal, the only transformation a byte-order cast ever applies,
//! is specified against that sequence and implemented with plain shifts
//! and masks, bounded by the type's width.

use vstd::prelude::*;

verus! {

/// A fixed-size, copyable scalar whose byte layout is fully described by
/// [`Scalar::le_bytes`], its little-endian byte sequence.
pub trait Scalar: Copy + Sized {
    /// The value's bytes from least significant to most significant.
    spec fn le_bytes(self) -> Seq<u8>;

    /// How many bytes a value of this type occupies.
    spec fn width_spec() -> nat;

    /// The value whose byte sequence is this value's byte sequence
    /// reversed.
    spec fn swapped_spec(self) -> Self;

    /// The all-zero value, substituted by lossy accessors on failure.
    spec fn zero_spec() -> Self;

    /// The byte sequence has exactly the type's width.
    proof fn lemma_width(self)
        ensures
            self.le_bytes().len() == Self::width_spec(),
            Self::width_spec() >= 1,
    ;

    /// Two values with the same byte sequence are the same value.
    proof fn lemma_le_bytes_injective(self, other: Self)
        requires
            self.le_bytes() == other.le_bytes(),
        ensures
            self == other,
    ;

    /// `swapped_spec` reverses the byte sequence, exactly.
    proof fn lemma_swapped_le_bytes(self)
        ensures
            self.swapped_spec().le_bytes() == self.le_bytes().reverse(),
    ;

    /// The type's width in bytes.
    fn width() -> (n: usize)
        ensures
            n == Self::width_spec(),
    ;

    /// Returns the value with its bytes in reverse order.
    fn swapped(self) -> (r: Self)
        ensures
            r == self.swapped_spec(),
    ;

    /// Returns the all-zero value.
    fn zeroed() -> (r: Self)
        ensures
            r == Self::zero_spec(),
    ;

    /// Builds the value whose little-endian byte sequence is `bytes`.
    fn from_le(bytes: &Vec<u8>) -> (r: Self)
        requires
            bytes@.len() == Self::width_spec(),
        ensures
            r.le_bytes() == bytes@,
    ;
}

/// Reversing a value's bytes twice gives the value back, so a cast and
/// the cast back undo each other at the byte level and at the value
/// level, for every width.
pub proof fn lemma_swapped_involutive<T: Scalar>(v: T)
    ensures
        v.swapped_spec().swapped_spec() == v,
        v.swapped_spec().le_bytes().reverse() == v.le_bytes(),
{
    let s = v.swapped_spec();
    v.lemma_swapped_le_bytes();
    s.lemma_swapped_le_bytes();
    assert(s.le_bytes().reverse() =~= v.le_bytes());
    assert(s.swapped_spec().le_bytes() =~= v.le_bytes());
    s.swapped_spec().lemma_le_bytes_injective(v);
}

/// A single-byte value is unchanged by byte reversal.
pub proof fn lemma_single_byte_swap_identity<T: Scalar>(v: T)
    requires
        v.le_bytes().len() == 1,
    ensures
        v.swapped_spec() == v,
{
    v.lemma_swapped_le_bytes();
    assert(v.swapped_spec().le_bytes() =~= v.le_bytes());
    v.swapped_spec().lemma_le_bytes_injective(v);
}

impl Scalar for u8 {
    open spec fn le_bytes(self) -> Seq<u8> {
        seq![self]
    }

    open spec fn width_spec() -> nat {
        1
    }

    open spec fn swapped_spec(self) -> Self {
        self
    }

    open spec fn zero_spec() -> Self {
        0u8
    }

    proof fn lemma_width(self) {
    }

    proof fn lemma_le_bytes_injective(self, other: Self) {
        assert(self.le_bytes()[0] == self);
        assert(other.le_bytes()[0] == other);
    }

    proof fn lemma_swapped_le_bytes(self) {
        assert(self.le_bytes().reverse() =~= self.le_bytes());
    }

    fn width() -> usize {
        1
    }

    fn swapped(self) -> Self {
        self
    }

    fn zeroed() -> Self {
        0
    }

    fn from_le(bytes: &Vec<u8>) -> (r: Self) {
        let r = bytes[0];
        proof {
            assert(r.le_bytes() =~= bytes@);
        }
        r
    }
}

impl Scalar for u16 {
    open spec fn le_bytes(self) -> Seq<u8> {
        seq![(self & 0xff) as u8, ((self >> 8) & 0xff) as u8]
    }

    open spec fn width_spec() -> nat {
        2
    }

    open spec fn swapped_spec(self) -> Self {
        ((self & 0xff) << 8) | ((self >> 8) & 0xff)
    }

    open spec fn zero_spec() -> Self {
        0u16
    }

    proof fn lemma_width(self) {
    }

    proof fn lemma_le_bytes_injective(self, other: Self) {
        let a = self;
        let b = other;
        assert(a.le_bytes()[0] == b.le_bytes()[0]);
        assert(a.le_bytes()[1] == b.le_bytes()[1]);
        assert(a == b) by (bit_vector)
            requires
                (a & 0xff) as u8 == (b & 0xff) as u8,
                ((a >> 8) & 0xff) as u8 == ((b >> 8) & 0xff) as u8,
        ;
    }

    proof fn lemma_swapped_le_bytes(self) {
        let a = self;
        let s = a.swapped_spec();
        assert((s & 0xff) as u8 == ((a >> 8) & 0xff) as u8 && ((s >> 8) & 0xff) as u8 == (a
            & 0xff) as u8) by (bit_vector)
            requires
                s == ((a & 0xff) << 8) | ((a >> 8) & 0xff),
        ;
        assert(s.le_bytes() =~= a.le_bytes().reverse());
    }

    fn width() -> usize {
        2
    }

    fn swapped(self) -> Self {
        ((self & 0xff) << 8) | ((self >> 8) & 0xff)
    }

    fn zeroed() -> Self {
        0
    }

    fn from_le(bytes: &Vec<u8>) -> (r: Self) {
        let b0 = bytes[0];
        let b1 = bytes[1];
        let r: u16 = (b0 as u16) | ((b1 as u16) << 8);
        proof {
            assert((r & 0xff) as u8 == b0 && ((r >> 8) & 0xff) as u8 == b1) by (bit_vector)
                requires
                    r == (b0 as u16) | ((b1 as u16) << 8),
            ;
            assert(r.le_bytes() =~= bytes@);
        }
        r
    }
}

impl Scalar for u32 {
    open spec fn le_bytes(self) -> Seq<u8> {
        seq![
            (self & 0xff) as u8,
            ((self >> 8) & 0xff) as u8,
            ((self >> 16) & 0xff) as u8,
            ((self >> 24) & 0xff) as u8,
        ]
    }

    open spec fn width_spec() -> nat {
        4
    }

    open spec fn swapped_spec(self) -> Self {
        ((self & 0xff) << 24) | (((self >> 8) & 0xff) << 16) | (((self >> 16) & 0xff) << 8) | ((
        self >> 24) & 0xff)
    }

    open spec fn zero_spec() -> Self {
        0u32
    }

    proof fn lemma_width(self) {
    }

    proof fn lemma_le_bytes_injective(self, other: Self) {
        let a = self;
        let b = other;
        assert(a.le_bytes()[0] == b.le_bytes()[0]);
        assert(a.le_bytes()[1] == b.le_bytes()[1]);
        assert(a.le_bytes()[2] == b.le_bytes()[2]);
        assert(a.le_bytes()[3] == b.le_bytes()[3]);
        assert(a == b) by (bit_vector)
            requires
                (a & 0xff) as u8 == (b & 0xff) as u8,
                ((a >> 8) & 0xff) as u8 == ((b >> 8) & 0xff) as u8,
                ((a >> 16) & 0xff) as u8 == ((b >> 16) & 0xff) as u8,
                ((a >> 24) & 0xff) as u8 == ((b >> 24) & 0xff) as u8,
        ;
    }

    proof fn lemma_swapped_le_bytes(self) {
        let a = self;
        let s = a.swapped_spec();
        assert((s & 0xff) as u8 == ((a >> 24) & 0xff) as u8 && ((s >> 8) & 0xff) as u8 == ((a
            >> 16) & 0xff) as u8 && ((s >> 16) & 0xff) as u8 == ((a >> 8) & 0xff) as u8 && ((s
            >> 24) & 0xff) as u8 == (a & 0xff) as u8) by (bit_vector)
            requires
                s == ((a & 0xff) << 24) | (((a >> 8) & 0xff) << 16) | (((a >> 16) & 0xff) << 8) | (
                (a >> 24) & 0xff),
        ;
        assert(s.le_bytes() =~= a.le_bytes().reverse());
    }

    fn width() -> usize {
        4
    }

    fn swapped(self) -> Self {
        ((self & 0xff) << 24) | (((self >> 8) & 0xff) << 16) | (((self >> 16) & 0xff) << 8) | ((
        self >> 24) & 0xff)
    }

    fn zeroed() -> Self {
        0
    }

    fn from_le(bytes: &Vec<u8>) -> (r: Self) {
        let b0 = bytes[0];
        let b1 = bytes[1];
        let b2 = bytes[2];
        let b3 = bytes[3];
        let r: u32 = (b0 as u32) | ((b1 as u32) << 8) | ((b2 as u32) << 16) | ((b3 as u32) << 24);
        proof {
            assert((r & 0xff) as u8 == b0 && ((r >> 8) & 0xff) as u8 == b1 && ((r >> 16)
                & 0xff) as u8 == b2 && ((r >> 24) & 0xff) as u8 == b3) by (bit_vector)
                requires
                    r == (b0 as u32) | ((b1 as u32) << 8) | ((b2 as u32) << 16) | ((b3 as u32)
                        << 24),
            ;
            assert(r.le_bytes() =~= bytes@);
        }
        r
    }
}

impl Scalar for u64 {
    open spec fn le_bytes(self) -> Seq<u8> {
        seq![
            (self & 0xff) as u8,
            ((self >> 8) & 0xff) as u8,
            ((self >> 16) & 0xff) as u8,
            ((self >> 24) & 0xff) as u8,
            ((self >> 32) & 0xff) as u8,
            ((self >> 40) & 0xff) as u8,
            ((self >> 48) & 0xff) as u8,
            ((self >> 56) & 0xff) as u8,
        ]
    }

    open spec fn width_spec() -> nat {
        8
    }

    open spec fn swapped_spec(self) -> Self {
        ((self & 0xff) << 56) | (((self >> 8) & 0xff) << 48) | (((self >> 16) & 0xff) << 40) | (((
        self >> 24) & 0xff) << 32) | (((self >> 32) & 0xff) << 24) | (((self >> 40) & 0xff) << 16)
            | (((self >> 48) & 0xff) << 8) | ((self >> 56) & 0xff)
    }

    open spec fn zero_spec() -> Self {
        0u64
    }

    proof fn lemma_width(self) {
    }

    proof fn lemma_le_bytes_injective(self, other: Self) {
        let a = self;
        let b = other;
        assert(a.le_bytes()[0] == b.le_bytes()[0]);
        assert(a.le_bytes()[1] == b.le_bytes()[1]);
        assert(a.le_bytes()[2] == b.le_bytes()[2]);
        assert(a.le_bytes()[3] == b.le_bytes()[3]);
        assert(a.le_bytes()[4] == b.le_bytes()[4]);
        assert(a.le_bytes()[5] == b.le_bytes()[5]);
        assert(a.le_bytes()[6] == b.le_bytes()[6]);
        assert(a.le_bytes()[7] == b.le_bytes()[7]);
        assert(a == b) by (bit_vector)
            requires
                (a & 0xff) as u8 == (b & 0xff) as u8,
                ((a >> 8) & 0xff) as u8 == ((b >> 8) & 0xff) as u8,
                ((a >> 16) & 0xff) as u8 == ((b >> 16) & 0xff) as u8,
                ((a >> 24) & 0xff) as u8 == ((b >> 24) & 0xff) as u8,
                ((a >> 32) & 0xff) as u8 == ((b >> 32) & 0xff) as u8,
                ((a >> 40) & 0xff) as u8 == ((b >> 40) & 0xff) as u8,
                ((a >> 48) & 0xff) as u8 == ((b >> 48) & 0xff) as u8,
                ((a >> 56) & 0xff) as u8 == ((b >> 56) & 0xff) as u8,
        ;
    }

    proof fn lemma_swapped_le_bytes(self) {
        let a = self;
        let s = a.swapped_spec();
        assert((s & 0xff) as u8 == ((a >> 56) & 0xff) as u8 && ((s >> 8) & 0xff) as u8 == ((a
            >> 48) & 0xff) as u8 && ((s >> 16) & 0xff) as u8 == ((a >> 40) & 0xff) as u8 && ((s
            >> 24) & 0xff) as u8 == ((a >> 32) & 0xff) as u8 && ((s >> 32) & 0xff) as u8 == ((a
            >> 24) & 0xff) as u8 && ((s >> 40) & 0xff) as u8 == ((a >> 16) & 0xff) as u8 && ((s
            >> 48) & 0xff) as u8 == ((a >> 8) & 0xff) as u8 && ((s >> 56) & 0xff) as u8 == (a
            & 0xff) as u8) by (bit_vector)
            requires
                s == ((a & 0xff) << 56) | (((a >> 8) & 0xff) << 48) | (((a >> 16) & 0xff) << 40) | (
                ((a >> 24) & 0xff) << 32) | (((a >> 32) & 0xff) << 24) | (((a >> 40) & 0xff) << 16)
                    | (((a >> 48) & 0xff) << 8) | ((a >> 56) & 0xff),
        ;
        assert(s.le_bytes() =~= a.le_bytes().reverse());
    }

    fn width() -> usize {
        8
    }

    fn swapped(self) -> Self {
        ((self & 0xff) << 56) | (((self >> 8) & 0xff) << 48) | (((self >> 16) & 0xff) << 40) | (((
        self >> 24) & 0xff) << 32) | (((self >> 32) & 0xff) << 24) | (((self >> 40) & 0xff) << 16)
            | (((self >> 48) & 0xff) << 8) | ((self >> 56) & 0xff)
    }

    fn zeroed() -> Self {
        0
    }

    fn from_le(bytes: &Vec<u8>) -> (r: Self) {
        let b0 = bytes[0];
        let b1 = bytes[1];
        let b2 = bytes[2];
        let b3 = bytes[3];
        let b4 = bytes[4];
        let b5 = bytes[5];
        let b6 = bytes[6];
        let b7 = bytes[7];
        let r: u64 = (b0 as u64) | ((b1 as u64) << 8) | ((b2 as u64) << 16) | ((b3 as u64) << 24)
            | ((b4 as u64) << 32) | ((b5 as u64) << 40) | ((b6 as u64) << 48) | ((b7 as u64)
            << 56);
        proof {
            assert((r & 0xff) as u8 == b0 && ((r >> 8) & 0xff) as u8 == b1 && ((r >> 16)
                & 0xff) as u8 == b2 && ((r >> 24) & 0xff) as u8 == b3 && ((r >> 32)
                & 0xff) as u8 == b4 && ((r >> 40) & 0xff) as u8 == b5 && ((r >> 48)
                & 0xff) as u8 == b6 && ((r >> 56) & 0xff) as u8 == b7) by (bit_vector)
                requires
                    r == (b0 as u64) | ((b1 as u64) << 8) | ((b2 as u64) << 16) | ((b3 as u64)
                        << 24) | ((b4 as u64) << 32) | ((b5 as u64) << 40) | ((b6 as u64) << 48) | (
                    (b7 as u64) << 56),
            ;
            assert(r.le_bytes() =~= bytes@);
        }
        r
    }
}

impl Scalar for i8 {
    open spec fn le_bytes(self) -> Seq<u8> {
        seq![self as u8]
    }

    open spec fn width_spec() -> nat {
        1
    }

    open spec fn swapped_spec(self) -> Self {
        self
    }

    open spec fn zero_spec() -> Self {
        0i8
    }

    proof fn lemma_width(self) {
    }

    proof fn lemma_le_bytes_injective(self, other: Self) {
        let a = self;
        let b = other;
        assert(a.le_bytes()[0] == b.le_bytes()[0]);
        assert(a == b) by (bit_vector)
            requires
                a as u8 == b as u8,
        ;
    }

    proof fn lemma_swapped_le_bytes(self) {
        assert(self.le_bytes().reverse() =~= self.le_bytes());
    }

    fn width() -> usize {
        1
    }

    fn swapped(self) -> Self {
        self
    }

    fn zeroed() -> Self {
        0
    }

    fn from_le(bytes: &Vec<u8>) -> (r: Self) {
        let b0 = bytes[0];
        let r: i8 = b0 as i8;
        proof {
            assert(r as u8 == b0) by (bit_vector)
                requires
                    r == b0 as i8,
            ;
            assert(r.le_bytes() =~= bytes@);
        }
        r
    }
}

impl Scalar for i16 {
    open spec fn le_bytes(self) -> Seq<u8> {
        seq![((self as u16) & 0xff) as u8, (((self as u16) >> 8) & 0xff) as u8]
    }

    open spec fn width_spec() -> nat {
        2
    }

    open spec fn swapped_spec(self) -> Self {
        ((((self as u16) & 0xff) << 8) | (((self as u16) >> 8) & 0xff)) as i16
    }

    open spec fn zero_spec() -> Self {
        0i16
    }

    proof fn lemma_width(self) {
    }

    proof fn lemma_le_bytes_injective(self, other: Self) {
        let a = self;
        let b = other;
        assert(a.le_bytes()[0] == b.le_bytes()[0]);
        assert(a.le_bytes()[1] == b.le_bytes()[1]);
        assert(a == b) by (bit_vector)
            requires
                ((a as u16) & 0xff) as u8 == ((b as u16) & 0xff) as u8,
                (((a as u16) >> 8) & 0xff) as u8 == (((b as u16) >> 8) & 0xff) as u8,
        ;
    }

    proof fn lemma_swapped_le_bytes(self) {
        let a = self;
        let s = a.swapped_spec();
        assert(((s as u16) & 0xff) as u8 == (((a as u16) >> 8) & 0xff) as u8 && (((s as u16) >> 8)
            & 0xff) as u8 == ((a as u16) & 0xff) as u8) by (bit_vector)
            requires
                s == ((((a as u16) & 0xff) << 8) | (((a as u16) >> 8) & 0xff)) as i16,
        ;
        assert(s.le_bytes() =~= a.le_bytes().reverse());
    }

    fn width() -> usize {
        2
    }

    fn swapped(self) -> Self {
        ((((self as u16) & 0xff) << 8) | (((self as u16) >> 8) & 0xff)) as i16
    }

    fn zeroed() -> Self {
        0
    }

    fn from_le(bytes: &Vec<u8>) -> (r: Self) {
        let b0 = bytes[0];
        let b1 = bytes[1];
        let r: i16 = ((b0 as u16) | ((b1 as u16) << 8)) as i16;
        proof {
            assert(((r as u16) & 0xff) as u8 == b0 && (((r as u16) >> 8) & 0xff) as u8 == b1)
                by (bit_vector)
                requires
                    r == ((b0 as u16) | ((b1 as u16) << 8)) as i16,
            ;
            assert(r.le_bytes() =~= bytes@);
        }
        r
    }
}

impl Scalar for i32 {
    open spec fn le_bytes(self) -> Seq<u8> {
        seq![
            ((self as u32) & 0xff) as u8,
            (((self as u32) >> 8) & 0xff) as u8,
            (((self as u32) >> 16) & 0xff) as u8,
            (((self as u32) >> 24) & 0xff) as u8,
        ]
    }

    open spec fn width_spec() -> nat {
        4
    }

    open spec fn swapped_spec(self) -> Self {
        ((((self as u32) & 0xff) << 24) | ((((self as u32) >> 8) & 0xff) << 16) | ((((self as u32)
            >> 16) & 0xff) << 8) | (((self as u32) >> 24) & 0xff)) as i32
    }

    open spec fn zero_spec() -> Self {
        0i32
    }

    proof fn lemma_width(self) {
    }

    proof fn lemma_le_bytes_injective(self, other: Self) {
        let a = self;
        let b = other;
        assert(a.le_bytes()[0] == b.le_bytes()[0]);
        assert(a.le_bytes()[1] == b.le_bytes()[1]);
        assert(a.le_bytes()[2] == b.le_bytes()[2]);
        assert(a.le_bytes()[3] == b.le_bytes()[3]);
        assert(a == b) by (bit_vector)
            requires
                ((a as u32) & 0xff) as u8 == ((b as u32) & 0xff) as u8,
                (((a as u32) >> 8) & 0xff) as u8 == (((b as u32) >> 8) & 0xff) as u8,
                (((a as u32) >> 16) & 0xff) as u8 == (((b as u32) >> 16) & 0xff) as u8,
                (((a as u32) >> 24) & 0xff) as u8 == (((b as u32) >> 24) & 0xff) as u8,
        ;
    }

    proof fn lemma_swapped_le_bytes(self) {
        let a = self;
        let s = a.swapped_spec();
        assert(((s as u32) & 0xff) as u8 == (((a as u32) >> 24) & 0xff) as u8 && (((s as u32) >> 8)
            & 0xff) as u8 == (((a as u32) >> 16) & 0xff) as u8 && (((s as u32) >> 16)
            & 0xff) as u8 == (((a as u32) >> 8) & 0xff) as u8 && (((s as u32) >> 24)
            & 0xff) as u8 == ((a as u32) & 0xff) as u8) by (bit_vector)
            requires
                s == ((((a as u32) & 0xff) << 24) | ((((a as u32) >> 8) & 0xff) << 16) | ((((
                a as u32) >> 16) & 0xff) << 8) | (((a as u32) >> 24) & 0xff)) as i32,
        ;
        assert(s.le_bytes() =~= a.le_bytes().reverse());
    }

    fn width() -> usize {
        4
    }

    fn swapped(self) -> Self {
        ((((self as u32) & 0xff) << 24) | ((((self as u32) >> 8) & 0xff) << 16) | ((((self as u32)
            >> 16) & 0xff) << 8) | (((self as u32) >> 24) & 0xff)) as i32
    }

    fn zeroed() -> Self {
        0
    }

    fn from_le(bytes: &Vec<u8>) -> (r: Self) {
        let b0 = bytes[0];
        let b1 = bytes[1];
        let b2 = bytes[2];
        let b3 = bytes[3];
        let r: i32 = ((b0 as u32) | ((b1 as u32) << 8) | ((b2 as u32) << 16) | ((b3 as u32) << 24))
            as i32;
        proof {
            assert(((r as u32) & 0xff) as u8 == b0 && (((r as u32) >> 8) & 0xff) as u8 == b1 && (((
            r as u32) >> 16) & 0xff) as u8 == b2 && (((r as u32) >> 24) & 0xff) as u8 == b3)
                by (bit_vector)
                requires
                    r == ((b0 as u32) | ((b1 as u32) << 8) | ((b2 as u32) << 16) | ((b3 as u32)
                        << 24)) as i32,
            ;
            assert(r.le_bytes() =~= bytes@);
        }
        r
    }
}

impl Scalar for i64 {
    open spec fn le_bytes(self) -> Seq<u8> {
        seq![
            ((self as u64) & 0xff) as u8,
            (((self as u64) >> 8) & 0xff) as u8,
            (((self as u64) >> 16) & 0xff) as u8,
            (((self as u64) >> 24) & 0xff) as u8,
            (((self as u64) >> 32) & 0xff) as u8,
            (((self as u64) >> 40) & 0xff) as u8,
            (((self as u64) >> 48) & 0xff) as u8,
            (((self as u64) >> 56) & 0xff) as u8,
        ]
    }

    open spec fn width_spec() -> nat {
        8
    }

    open spec fn swapped_spec(self) -> Self {
        ((((self as u64) & 0xff) << 56) | ((((self as u64) >> 8) & 0xff) << 48) | ((((self as u64)
            >> 16) & 0xff) << 40) | ((((self as u64) >> 24) & 0xff) << 32) | ((((self as u64)
            >> 32) & 0xff) << 24) | ((((self as u64) >> 40) & 0xff) << 16) | ((((self as u64)
            >> 48) & 0xff) << 8) | (((self as u64) >> 56) & 0xff)) as i64
    }

    open spec fn zero_spec() -> Self {
        0i64
    }

    proof fn lemma_width(self) {
    }

    proof fn lemma_le_bytes_injective(self, other: Self) {
        let a = self;
        let b = other;
        assert(a.le_bytes()[0] == b.le_bytes()[0]);
        assert(a.le_bytes()[1] == b.le_bytes()[1]);
        assert(a.le_bytes()[2] == b.le_bytes()[2]);
        assert(a.le_bytes()[3] == b.le_bytes()[3]);
        assert(a.le_bytes()[4] == b.le_bytes()[4]);
        assert(a.le_bytes()[5] == b.le_bytes()[5]);
        assert(a.le_bytes()[6] == b.le_bytes()[6]);
        assert(a.le_bytes()[7] == b.le_bytes()[7]);
        assert(a == b) by (bit_vector)
            requires
                ((a as u64) & 0xff) as u8 == ((b as u64) & 0xff) as u8,
                (((a as u64) >> 8) & 0xff) as u8 == (((b as u64) >> 8) & 0xff) as u8,
                (((a as u64) >> 16) & 0xff) as u8 == (((b as u64) >> 16) & 0xff) as u8,
                (((a as u64) >> 24) & 0xff) as u8 == (((b as u64) >> 24) & 0xff) as u8,
                (((a as u64) >> 32) & 0xff) as u8 == (((b as u64) >> 32) & 0xff) as u8,
                (((a as u64) >> 40) & 0xff) as u8 == (((b as u64) >> 40) & 0xff) as u8,
                (((a as u64) >> 48) & 0xff) as u8 == (((b as u64) >> 48) & 0xff) as u8,
                (((a as u64) >> 56) & 0xff) as u8 == (((b as u64) >> 56) & 0xff) as u8,
        ;
    }

    proof fn lemma_swapped_le_bytes(self) {
        let a = self;
        let s = a.swapped_spec();
        assert(((s as u64) & 0xff) as u8 == (((a as u64) >> 56) & 0xff) as u8 && (((s as u64) >> 8)
            & 0xff) as u8 == (((a as u64) >> 48) & 0xff) as u8 && (((s as u64) >> 16)
            & 0xff) as u8 == (((a as u64) >> 40) & 0xff) as u8 && (((s as u64) >> 24)
            & 0xff) as u8 == (((a as u64) >> 32) & 0xff) as u8 && (((s as u64) >> 32)
            & 0xff) as u8 == (((a as u64) >> 24) & 0xff) as u8 && (((s as u64) >> 40)
            & 0xff) as u8 == (((a as u64) >> 16) & 0xff) as u8 && (((s as u64) >> 48)
            & 0xff) as u8 == (((a as u64) >> 8) & 0xff) as u8 && (((s as u64) >> 56)
            & 0xff) as u8 == ((a as u64) & 0xff) as u8) by (bit_vector)
            requires
                s == ((((a as u64) & 0xff) << 56) | ((((a as u64) >> 8) & 0xff) << 48) | ((((
                a as u64) >> 16) & 0xff) << 40) | ((((a as u64) >> 24) & 0xff) << 32) | ((((
                a as u64) >> 32) & 0xff) << 24) | ((((a as u64) >> 40) & 0xff) << 16) | ((((
                a as u64) >> 48) & 0xff) << 8) | (((a as u64) >> 56) & 0xff)) as i64,
        ;
        assert(s.le_bytes() =~= a.le_bytes().reverse());
    }

    fn width() -> usize {
        8
    }

    fn swapped(self) -> Self {
        ((((self as u64) & 0xff) << 56) | ((((self as u64) >> 8) & 0xff) << 48) | ((((self as u64)
            >> 16) & 0xff) << 40) | ((((self as u64) >> 24) & 0xff) << 32) | ((((self as u64)
            >> 32) & 0xff) << 24) | ((((self as u64) >> 40) & 0xff) << 16) | ((((self as u64)
            >> 48) & 0xff) << 8) | (((self as u64) >> 56) & 0xff)) as i64
    }

    fn zeroed() -> Self {
        0
    }

    fn from_le(bytes: &Vec<u8>) -> (r: Self) {
        let b0 = bytes[0];
        let b1 = bytes[1];
        let b2 = bytes[2];
        let b3 = bytes[3];
        let b4 = bytes[4];
        let b5 = bytes[5];
        let b6 = bytes[6];
        let b7 = bytes[7];
        let r: i64 = ((b0 as u64) | ((b1 as u64) << 8) | ((b2 as u64) << 16) | ((b3 as u64) << 24)
            | ((b4 as u64) << 32) | ((b5 as u64) << 40) | ((b6 as u64) << 48) | ((b7 as u64)
            << 56)) as i64;
        proof {
            assert(((r as u64) & 0xff) as u8 == b0 && (((r as u64) >> 8) & 0xff) as u8 == b1 && (((
            r as u64) >> 16) & 0xff) as u8 == b2 && (((r as u64) >> 24) & 0xff) as u8 == b3 && (((
            r as u64) >> 32) & 0xff) as u8 == b4 && (((r as u64) >> 40) & 0xff) as u8 == b5 && (((
            r as u64) >> 48) & 0xff) as u8 == b6 && (((r as u64) >> 56) & 0xff) as u8 == b7)
                by (bit_vector)
                requires
                    r == ((b0 as u64) | ((b1 as u64) << 8) | ((b2 as u64) << 16) | ((b3 as u64)
                        << 24) | ((b4 as u64) << 32) | ((b5 as u64) << 40) | ((b6 as u64) << 48) | (
                    (b7 as u64) << 56)) as i64,
            ;
            assert(r.le_bytes() =~= bytes@);
        }
        r
    }
}

} // verus!
