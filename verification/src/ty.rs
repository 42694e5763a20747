//! Pixel element types: the numeric representation of one channel sample,
//! given by its size in bytes, whether it is floating-point, and its bit
//! pattern. In a byte stream an element is its bit pattern, least
//! significant byte first.

use vstd::prelude::*;

verus! {

/// 256 to the power `n`.
pub open spec fn pow256(n: nat) -> nat
    decreases n,
{
    if n == 0 {
        1
    } else {
        256 * pow256((n - 1) as nat)
    }
}

/// The `n` low bytes of `x`, least significant first.
pub open spec fn le_bytes(x: nat, n: nat) -> Seq<u8>
    decreases n,
{
    if n == 0 {
        Seq::empty()
    } else {
        seq![(x % 256) as u8] + le_bytes(x / 256, (n - 1) as nat)
    }
}

/// The number whose bytes, least significant first, are `s`.
pub open spec fn le_value(s: Seq<u8>) -> nat
    decreases s.len(),
{
    if s.len() == 0 {
        0
    } else {
        s[0] as nat + 256 * le_value(s.drop_first())
    }
}

/// `le_bytes` gives as many bytes as it is asked for.
pub proof fn lemma_le_bytes_len(x: nat, n: nat)
    ensures
        le_bytes(x, n).len() == n,
    decreases n,
{
    if n > 0 {
        lemma_le_bytes_len(x / 256, (n - 1) as nat);
    }
}

/// The value of `n` bytes is below 256 to the power `n`.
pub proof fn lemma_le_value_bound(s: Seq<u8>)
    ensures
        le_value(s) < pow256(s.len()),
    decreases s.len(),
{
    if s.len() > 0 {
        lemma_le_value_bound(s.drop_first());
    }
}

/// A number that fits `n` bytes is the value of its `n` bytes.
pub proof fn lemma_le_value_of_bytes(x: nat, n: nat)
    requires
        x < pow256(n),
    ensures
        le_value(le_bytes(x, n)) == x,
    decreases n,
{
    if n > 0 {
        let rest = le_bytes(x / 256, (n - 1) as nat);
        lemma_le_bytes_len(x / 256, (n - 1) as nat);
        lemma_le_value_of_bytes(x / 256, (n - 1) as nat);
        assert(le_bytes(x, n).drop_first() =~= rest);
    }
}

/// Bytes are the bytes of their value.
pub proof fn lemma_le_bytes_of_value(s: Seq<u8>)
    ensures
        le_bytes(le_value(s), s.len()) == s,
    decreases s.len(),
{
    if s.len() > 0 {
        let rest = s.drop_first();
        lemma_le_bytes_of_value(rest);
        let v = le_value(s);
        assert(v % 256 == s[0] as nat);
        assert(v / 256 == le_value(rest));
        assert(le_bytes(v, s.len()) =~= s);
    } else {
        assert(le_bytes(le_value(s), s.len()) =~= s);
    }
}

/// Appends the `width` low bytes of `value` to `out`, least significant
/// first.
pub fn le_encode(value: u64, width: usize, out: &mut Vec<u8>)
    ensures
        final(out)@ == old(out)@ + le_bytes(value as nat, width as nat),
{
    let mut v: u64 = value;
    let mut i: usize = 0;
    while i < width
        invariant
            i <= width,
            old(out)@ + le_bytes(value as nat, width as nat) == out@ + le_bytes(
                v as nat,
                (width - i) as nat,
            ),
        decreases width - i,
    {
        let ghost before = out@;
        out.push((v % 256) as u8);
        proof {
            let k = (width - i) as nat;
            assert(before + le_bytes(v as nat, k) =~= before.push((v % 256) as u8) + le_bytes(
                (v / 256) as nat,
                (k - 1) as nat,
            ));
        }
        v = v / 256;
        i = i + 1;
    }
    assert(out@ + le_bytes(v as nat, 0) =~= out@);
}

/// The number whose bytes, least significant first, are `bytes`.
pub fn le_decode(bytes: &[u8]) -> (value: u64)
    requires
        bytes@.len() <= 8,
    ensures
        value == le_value(bytes@),
{
    let mut value: u64 = 0;
    let mut i: usize = bytes.len();
    assert(bytes@.skip(i as int) =~= Seq::<u8>::empty());
    while i > 0
        invariant
            i <= bytes@.len() <= 8,
            value == le_value(bytes@.skip(i as int)),
        decreases i,
    {
        proof {
            let tail = bytes@.skip(i as int);
            let next = bytes@.skip(i - 1);
            assert(next.drop_first() =~= tail);
            assert(next[0] == bytes@[i - 1]);
            lemma_le_value_bound(tail);
            lemma_le_value_bound(next);
            reveal_with_fuel(pow256, 9);
        }
        i = i - 1;
        value = value * 256 + bytes[i] as u64;
    }
    assert(bytes@.skip(0) =~= bytes@);
    value
}

/// A pixel element type.
///
/// An element takes between one and eight bytes. Its bit pattern is a number
/// below 256 to the power of its size, and determines the element.
pub trait Type: Sized {
    /// The size of an element in bytes.
    spec fn spec_size() -> nat;

    /// Whether elements are floating-point numbers.
    spec fn spec_is_float() -> bool;

    /// The bit pattern of the element, as a number.
    spec fn spec_bits(&self) -> nat;

    /// The element with the given bit pattern.
    spec fn spec_of_bits(bits: nat) -> Self;

    /// An element takes between one and eight bytes.
    proof fn lemma_size()
        ensures
            1 <= Self::spec_size() <= 8,
    ;

    /// The bit pattern of an element fits its size and gives the element
    /// back.
    proof fn lemma_bits(x: Self)
        ensures
            x.spec_bits() < pow256(Self::spec_size()),
            Self::spec_of_bits(x.spec_bits()) == x,
    ;

    /// Every bit pattern that fits the size is the bit pattern of the
    /// element made from it.
    proof fn lemma_of_bits(bits: nat)
        requires
            bits < pow256(Self::spec_size()),
        ensures
            Self::spec_of_bits(bits).spec_bits() == bits,
    ;

    /// The size of an element in bytes.
    fn size() -> (n: usize)
        ensures
            n == Self::spec_size(),
            1 <= n <= 8,
    ;

    /// Whether elements are floating-point numbers.
    fn is_float() -> (b: bool)
        ensures
            b == Self::spec_is_float(),
    ;

    /// The bit pattern of the element.
    fn bits(&self) -> (b: u64)
        ensures
            b == self.spec_bits(),
    ;

    /// The element with the given bit pattern.
    fn of_bits(bits: u64) -> (x: Self)
        requires
            bits < pow256(Self::spec_size()),
        ensures
            x == Self::spec_of_bits(bits as nat),
    ;
}

/// The bytes of the element `x` in a byte stream.
pub open spec fn element_bytes<T: Type>(x: T) -> Seq<u8> {
    le_bytes(x.spec_bits(), T::spec_size())
}

/// The element that the bytes `s` hold.
pub open spec fn element_of<T: Type>(s: Seq<u8>) -> T {
    T::spec_of_bits(le_value(s))
}

/// An element takes as many bytes as its size, and is the element that its
/// bytes hold.
pub proof fn lemma_element_round_trip<T: Type>(x: T)
    ensures
        element_bytes(x).len() == T::spec_size(),
        element_of::<T>(element_bytes(x)) == x,
{
    T::lemma_bits(x);
    lemma_le_bytes_len(x.spec_bits(), T::spec_size());
    lemma_le_value_of_bytes(x.spec_bits(), T::spec_size());
}

/// Bytes of the size of an element are the bytes of the element they hold.
pub proof fn lemma_bytes_round_trip<T: Type>(s: Seq<u8>)
    requires
        s.len() == T::spec_size(),
    ensures
        element_bytes(element_of::<T>(s)) == s,
{
    lemma_le_value_bound(s);
    T::lemma_of_bits(le_value(s));
    lemma_le_bytes_of_value(s);
}

impl Type for u8 {
    open spec fn spec_size() -> nat {
        1
    }

    open spec fn spec_is_float() -> bool {
        false
    }

    open spec fn spec_bits(&self) -> nat {
        *self as nat
    }

    open spec fn spec_of_bits(bits: nat) -> Self {
        bits as u8
    }

    proof fn lemma_size() {
    }

    proof fn lemma_bits(x: Self) {
        reveal_with_fuel(pow256, 2);
    }

    proof fn lemma_of_bits(bits: nat) {
        reveal_with_fuel(pow256, 2);
    }

    fn size() -> (n: usize) {
        1
    }

    fn is_float() -> (b: bool) {
        false
    }

    fn bits(&self) -> (b: u64) {
        *self as u64
    }

    fn of_bits(bits: u64) -> (x: Self) {
        proof {
            reveal_with_fuel(pow256, 2);
        }
        bits as u8
    }
}

impl Type for u16 {
    open spec fn spec_size() -> nat {
        2
    }

    open spec fn spec_is_float() -> bool {
        false
    }

    open spec fn spec_bits(&self) -> nat {
        *self as nat
    }

    open spec fn spec_of_bits(bits: nat) -> Self {
        bits as u16
    }

    proof fn lemma_size() {
    }

    proof fn lemma_bits(x: Self) {
        reveal_with_fuel(pow256, 3);
    }

    proof fn lemma_of_bits(bits: nat) {
        reveal_with_fuel(pow256, 3);
    }

    fn size() -> (n: usize) {
        2
    }

    fn is_float() -> (b: bool) {
        false
    }

    fn bits(&self) -> (b: u64) {
        *self as u64
    }

    fn of_bits(bits: u64) -> (x: Self) {
        proof {
            reveal_with_fuel(pow256, 3);
        }
        bits as u16
    }
}

impl Type for u32 {
    open spec fn spec_size() -> nat {
        4
    }

    open spec fn spec_is_float() -> bool {
        false
    }

    open spec fn spec_bits(&self) -> nat {
        *self as nat
    }

    open spec fn spec_of_bits(bits: nat) -> Self {
        bits as u32
    }

    proof fn lemma_size() {
    }

    proof fn lemma_bits(x: Self) {
        reveal_with_fuel(pow256, 5);
    }

    proof fn lemma_of_bits(bits: nat) {
        reveal_with_fuel(pow256, 5);
    }

    fn size() -> (n: usize) {
        4
    }

    fn is_float() -> (b: bool) {
        false
    }

    fn bits(&self) -> (b: u64) {
        *self as u64
    }

    fn of_bits(bits: u64) -> (x: Self) {
        proof {
            reveal_with_fuel(pow256, 5);
        }
        bits as u32
    }
}

impl Type for u64 {
    open spec fn spec_size() -> nat {
        8
    }

    open spec fn spec_is_float() -> bool {
        false
    }

    open spec fn spec_bits(&self) -> nat {
        *self as nat
    }

    open spec fn spec_of_bits(bits: nat) -> Self {
        bits as u64
    }

    proof fn lemma_size() {
    }

    proof fn lemma_bits(x: Self) {
        reveal_with_fuel(pow256, 9);
    }

    proof fn lemma_of_bits(bits: nat) {
        reveal_with_fuel(pow256, 9);
    }

    fn size() -> (n: usize) {
        8
    }

    fn is_float() -> (b: bool) {
        false
    }

    fn bits(&self) -> (b: u64) {
        *self
    }

    fn of_bits(bits: u64) -> (x: Self) {
        bits
    }
}

/// A single-precision floating-point element, held as its IEEE 754 bit
/// pattern.
#[derive(Debug, Clone, Copy, PartialEq, Eq)]
pub struct Float32 {
    /// The bit pattern.
    pub bits: u32,
}

impl Type for Float32 {
    open spec fn spec_size() -> nat {
        4
    }

    open spec fn spec_is_float() -> bool {
        true
    }

    open spec fn spec_bits(&self) -> nat {
        self.bits as nat
    }

    open spec fn spec_of_bits(bits: nat) -> Self {
        Float32 { bits: bits as u32 }
    }

    proof fn lemma_size() {
    }

    proof fn lemma_bits(x: Self) {
        reveal_with_fuel(pow256, 5);
    }

    proof fn lemma_of_bits(bits: nat) {
        reveal_with_fuel(pow256, 5);
    }

    fn size() -> (n: usize) {
        4
    }

    fn is_float() -> (b: bool) {
        true
    }

    fn bits(&self) -> (b: u64) {
        self.bits as u64
    }

    fn of_bits(bits: u64) -> (x: Self) {
        proof {
            reveal_with_fuel(pow256, 5);
        }
        Float32 { bits: bits as u32 }
    }
}

/// A double-precision floating-point element, held as its IEEE 754 bit
/// pattern.
#[derive(Debug, Clone, Copy, PartialEq, Eq)]
pub struct Float64 {
    /// The bit pattern.
    pub bits: u64,
}

impl Type for Float64 {
    open spec fn spec_size() -> nat {
        8
    }

    open spec fn spec_is_float() -> bool {
        true
    }

    open spec fn spec_bits(&self) -> nat {
        self.bits as nat
    }

    open spec fn spec_of_bits(bits: nat) -> Self {
        Float64 { bits: bits as u64 }
    }

    proof fn lemma_size() {
    }

    proof fn lemma_bits(x: Self) {
        reveal_with_fuel(pow256, 9);
    }

    proof fn lemma_of_bits(bits: nat) {
        reveal_with_fuel(pow256, 9);
    }

    fn size() -> (n: usize) {
        8
    }

    fn is_float() -> (b: bool) {
        true
    }

    fn bits(&self) -> (b: u64) {
        self.bits
    }

    fn of_bits(bits: u64) -> (x: Self) {
        Float64 { bits }
    }
}

} // verus!
