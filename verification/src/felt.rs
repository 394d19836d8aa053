//! Field elements of the Stark curve's base field.
use cairo_felt::Felt252;
use num_traits::Num;
use vstd::prelude::*;

verus! {

/// The Stark prime `2^251 + 17 * 2^192 + 1`.
pub open spec fn prime() -> nat {
    0x800000000000011000000000000000000000000000000000000000000000001nat
}

/// The number that a byte string denotes when read most significant byte first.
pub open spec fn be_value(s: Seq<u8>) -> nat
    decreases s.len(),
{
    if s.len() == 0 {
        0
    } else {
        be_value(s.drop_last()) * 256 + s.last() as nat
    }
}

/// Two byte strings of one length that denote the same number are equal.
pub proof fn lemma_be_value_injective(a: Seq<u8>, b: Seq<u8>)
    requires
        a.len() == b.len(),
        be_value(a) == be_value(b),
    ensures
        a == b,
    decreases a.len(),
{
    if a.len() > 0 {
        lemma_be_value_injective(a.drop_last(), b.drop_last());
        assert(a =~= a.drop_last().push(a.last()));
        assert(b =~= b.drop_last().push(b.last()));
    } else {
        assert(a =~= b);
    }
}

/// Of two byte strings of one length that agree up to a place where the
/// first has the smaller byte, the first denotes the smaller number.
pub proof fn lemma_be_value_order(a: Seq<u8>, b: Seq<u8>, i: int)
    requires
        a.len() == b.len(),
        0 <= i < a.len(),
        a.subrange(0, i) == b.subrange(0, i),
        a[i] < b[i],
    ensures
        be_value(a) < be_value(b),
    decreases a.len(),
{
    let n = a.len() as int;
    if i == n - 1 {
        assert(a.drop_last() =~= a.subrange(0, i));
        assert(b.drop_last() =~= b.subrange(0, i));
    } else {
        assert(a.drop_last().subrange(0, i) =~= a.subrange(0, i));
        assert(b.drop_last().subrange(0, i) =~= b.subrange(0, i));
        lemma_be_value_order(a.drop_last(), b.drop_last(), i);
    }
}

/// The number 256 to a power.
pub open spec fn pow256(n: nat) -> nat
    decreases n,
{
    if n == 0 {
        1
    } else {
        256 * pow256((n - 1) as nat)
    }
}

/// A byte string in two parts denotes the number of its first part, moved
/// up by the length of the second, plus the number of its second part.
pub proof fn lemma_be_value_concat(a: Seq<u8>, b: Seq<u8>)
    ensures
        be_value(a + b) == be_value(a) * pow256(b.len()) + be_value(b),
    decreases b.len(),
{
    if b.len() == 0 {
        assert(a + b =~= a);
        assert(pow256(0) == 1);
        assert(be_value(b) == 0);
        assert(be_value(a) * 1 == be_value(a));
    } else {
        lemma_be_value_concat(a, b.drop_last());
        assert((a + b).drop_last() =~= a + b.drop_last());
        assert((a + b).last() == b.last());
        let p = pow256((b.len() - 1) as nat);
        let x = be_value(a);
        let y = be_value(b.drop_last());
        assert(pow256(b.len()) == 256 * p);
        assert(be_value(b) == y * 256 + b.last());
        assert(be_value(a + b) == (x * p + y) * 256 + b.last());
        assert((x * p + y) * 256 == x * (256 * p) + y * 256) by (nonlinear_arith);
    }
}

/// A larger power of 256 is a larger number.
pub proof fn lemma_pow256_monotone(a: nat, b: nat)
    requires
        a <= b,
    ensures
        0 < pow256(a) <= pow256(b),
    decreases b,
{
    if b == 0 {
    } else if a == b {
        lemma_pow256_monotone((a - 1) as nat, (b - 1) as nat);
    } else {
        lemma_pow256_monotone(a, (b - 1) as nat);
    }
}

/// A byte string denotes a number under 256 to the power of its length.
pub proof fn lemma_be_value_bound(s: Seq<u8>)
    ensures
        be_value(s) < pow256(s.len()),
    decreases s.len(),
{
    if s.len() > 0 {
        lemma_be_value_bound(s.drop_last());
    }
}

/// A string of zero bytes denotes zero.
pub proof fn lemma_be_value_zeros(s: Seq<u8>)
    requires
        forall|i: int| 0 <= i < s.len() ==> s[i] == 0,
    ensures
        be_value(s) == 0,
    decreases s.len(),
{
    if s.len() > 0 {
        lemma_be_value_zeros(s.drop_last());
    }
}

/// An element of the prime field of order [`prime`], held as its 32-byte
/// big-endian encoding.
#[derive(Clone, Copy, Debug, PartialEq, Eq, Hash)]
pub struct Felt {
    pub(crate) bytes: [u8; 32],
}

impl View for Felt {
    type V = nat;

    closed spec fn view(&self) -> nat {
        be_value(self.bytes@)
    }
}

/// The numbers that a sequence of field elements holds.
pub open spec fn felts_view(s: Seq<Felt>) -> Seq<nat> {
    s.map_values(|f: Felt| f@)
}

impl Felt {
    /// Every element is held in reduced form.
    #[verifier::type_invariant]
    pub open spec fn canonical(self) -> bool {
        self@ < prime()
    }

    /// Elements with the same number are the same element.
    pub proof fn lemma_view_injective(a: Felt, b: Felt)
        requires
            a@ == b@,
        ensures
            a == b,
    {
        lemma_be_value_injective(a.bytes@, b.bytes@);
        assert(a.bytes@ =~= b.bytes@);
        assert(a.bytes == b.bytes);
    }

    /// The element whose reduced big-endian encoding is given.
    pub(crate) fn from_canonical_bytes(bytes: [u8; 32]) -> (r: Felt)
        requires
            be_value(bytes@) < prime(),
        ensures
            r@ == be_value(bytes@),
    {
        Felt { bytes }
    }

    /// The additive identity.
    pub fn zero() -> (r: Felt)
        ensures
            r@ == 0,
    {
        let bytes = [0u8; 32];
        proof {
            lemma_be_value_zeros(bytes@);
        }
        Felt { bytes }
    }

    /// Whether this is the additive identity.
    pub fn is_zero(&self) -> (r: bool)
        ensures
            r == (self@ == 0),
    {
        self.equals(&Felt::zero())
    }

    /// Whether this element is, as a natural number, less than another.
    pub fn lt(&self, other: &Felt) -> (r: bool)
        ensures
            r == (self@ < other@),
    {
        let mut i: usize = 0;
        while i < 32
            invariant
                0 <= i <= 32,
                self.bytes@.subrange(0, i as int) == other.bytes@.subrange(0, i as int),
            decreases 32 - i,
        {
            if self.bytes[i] < other.bytes[i] {
                proof {
                    lemma_be_value_order(self.bytes@, other.bytes@, i as int);
                }
                return true;
            }
            if self.bytes[i] > other.bytes[i] {
                proof {
                    lemma_be_value_order(other.bytes@, self.bytes@, i as int);
                }
                return false;
            }
            assert(self.bytes@.subrange(0, i + 1) =~= self.bytes@.subrange(0, i as int).push(
                self.bytes@[i as int],
            ));
            assert(other.bytes@.subrange(0, i + 1) =~= other.bytes@.subrange(0, i as int).push(
                other.bytes@[i as int],
            ));
            i += 1;
        }
        assert(self.bytes@ =~= self.bytes@.subrange(0, 32));
        assert(other.bytes@ =~= other.bytes@.subrange(0, 32));
        false
    }

    /// Whether two elements are the same number.
    pub fn equals(&self, other: &Felt) -> (r: bool)
        ensures
            r == (self@ == other@),
            r == (*self == *other),
    {
        let mut i: usize = 0;
        while i < 32
            invariant
                0 <= i <= 32,
                self.bytes@.subrange(0, i as int) == other.bytes@.subrange(0, i as int),
            decreases 32 - i,
        {
            if self.bytes[i] != other.bytes[i] {
                proof {
                    if self@ == other@ {
                        Felt::lemma_view_injective(*self, *other);
                    }
                }
                return false;
            }
            assert(self.bytes@.subrange(0, i + 1) =~= self.bytes@.subrange(0, i as int).push(
                self.bytes@[i as int],
            ));
            assert(other.bytes@.subrange(0, i + 1) =~= other.bytes@.subrange(0, i as int).push(
                other.bytes@[i as int],
            ));
            i += 1;
        }
        assert(self.bytes@ =~= self.bytes@.subrange(0, 32));
        assert(other.bytes@ =~= other.bytes@.subrange(0, 32));
        assert(self.bytes == other.bytes);
        true
    }
}


/// The character of a decimal digit.
pub open spec fn digit_char(d: nat) -> char {
    if d == 0 {
        '0'
    } else if d == 1 {
        '1'
    } else if d == 2 {
        '2'
    } else if d == 3 {
        '3'
    } else if d == 4 {
        '4'
    } else if d == 5 {
        '5'
    } else if d == 6 {
        '6'
    } else if d == 7 {
        '7'
    } else if d == 8 {
        '8'
    } else {
        '9'
    }
}

/// A number written in decimal, without leading zeros.
pub open spec fn decimal_digits(n: nat) -> Seq<char>
    decreases n,
{
    if n < 10 {
        seq![digit_char(n)]
    } else {
        decimal_digits(n / 10).push(digit_char(n % 10))
    }
}

/// Calls `Felt252::from_bytes_be`, which reads the bytes as a big-endian
/// number and reduces it modulo the Stark prime, and `Felt252::to_be_bytes`,
/// which writes the 32-byte big-endian form of the element.
#[verifier::external_body]
fn reduce_be_bytes(bytes: &[u8; 32]) -> (r: Felt)
    ensures
        r@ == be_value(bytes@) % prime(),
{
    Felt { bytes: Felt252::from_bytes_be(bytes).to_be_bytes() }
}

/// Calls `Felt252`'s `+`, the addition of the field: the sum of the two
/// numbers, less the Stark prime where it reaches it.
#[verifier::external_body]
fn field_add(a: &Felt, b: &Felt) -> (r: Felt)
    ensures
        r@ == (a@ + b@) % prime(),
{
    let sum = Felt252::from_bytes_be(&a.bytes) + Felt252::from_bytes_be(&b.bytes);
    Felt { bytes: sum.to_be_bytes() }
}

/// Calls `Felt252`'s `-`, the subtraction of the field: the difference of
/// the two numbers, plus the Stark prime where it would be negative.
#[verifier::external_body]
fn field_sub(a: &Felt, b: &Felt) -> (r: Felt)
    ensures
        r@ == (a@ + prime() - b@) % (prime() as int),
{
    let difference = Felt252::from_bytes_be(&a.bytes) - Felt252::from_bytes_be(&b.bytes);
    Felt { bytes: difference.to_be_bytes() }
}

/// The number that `Felt252`'s `Num::from_str_radix` reads out of a text in
/// base 16, reduced modulo the Stark prime, where it reads one.
pub uninterp spec fn hex_number(text: Seq<char>) -> Option<nat>;

/// Calls `Felt252`'s `Num::from_str_radix` with base 16.
#[verifier::external_body]
fn field_from_hex(text: &str) -> (r: Option<Felt>)
    ensures
        match r {
            Some(f) => hex_number(text@) == Some(f@),
            None => hex_number(text@).is_none(),
        },
{
    match Felt252::from_str_radix(text, 16) {
        Ok(f) => Some(Felt { bytes: f.to_be_bytes() }),
        Err(_) => None,
    }
}

/// Calls `Felt252`'s `Integer::mod_floor`, the remainder of the division of
/// the two elements as natural numbers. It panics on a zero divisor.
#[verifier::external_body]
fn field_mod_floor(a: &Felt, modulus: &Felt) -> (r: Felt)
    requires
        modulus@ != 0,
    ensures
        r@ == a@ % modulus@,
{
    let rem = num_integer::Integer::mod_floor(
        &Felt252::from_bytes_be(&a.bytes),
        &Felt252::from_bytes_be(&modulus.bytes),
    );
    Felt { bytes: rem.to_be_bytes() }
}

/// Calls `Felt252`'s `Display`, which writes the element in decimal.
#[verifier::external_body]
fn field_to_decimal(a: &Felt) -> (r: String)
    ensures
        r@ == decimal_digits(a@),
{
    format!("{}", Felt252::from_bytes_be(&a.bytes))
}

impl Felt {
    /// The element that 32 big-endian bytes denote, reduced modulo the prime.
    pub fn from_bytes_be(bytes: &[u8; 32]) -> (r: Felt)
        ensures
            r@ == be_value(bytes@) % prime(),
    {
        reduce_be_bytes(bytes)
    }

    /// The 32-byte big-endian encoding of the element.
    pub fn to_be_bytes(&self) -> (r: [u8; 32])
        ensures
            be_value(r@) == self@,
    {
        self.bytes
    }

    /// The element of a small number.
    pub fn from_u128(x: u128) -> (r: Felt)
        ensures
            r@ == x,
    {
        let mut bytes = [0u8; 32];
        let mut rest = x;
        let mut i: usize = 32;
        proof {
            assert(bytes@.subrange(32, 32) =~= Seq::<u8>::empty());
            assert(pow256(0) == 1);
            assert(be_value(bytes@.subrange(32, 32)) == 0);
            assert(rest * 1 == rest);
        }
        while i > 16
            invariant
                16 <= i <= 32,
                forall|j: int| 0 <= j < i ==> bytes@[j] == 0,
                rest * pow256((32 - i) as nat) + be_value(bytes@.subrange(i as int, 32)) == x,
            decreases i,
        {
            let ghost before = bytes@;
            let digit = (rest % 256) as u8;
            i -= 1;
            bytes[i] = digit;
            proof {
                let tail = before.subrange(i + 1, 32);
                let p = pow256((31 - i) as nat);
                assert(bytes@.subrange(i as int, 32) =~= seq![digit] + tail);
                assert(bytes@.subrange(i + 1, 32) =~= tail);
                lemma_be_value_concat(seq![digit], tail);
                assert(seq![digit].drop_last() =~= Seq::<u8>::empty());
                assert(seq![digit].last() == digit);
                assert(be_value(seq![digit].drop_last()) == 0);
                assert(be_value(seq![digit]) == digit);
                assert(pow256((32 - i) as nat) == 256 * p);
                assert(rest == (rest / 256) * 256 + digit);
                assert(rest * p == (rest / 256) * (256 * p) + digit * p) by (nonlinear_arith)
                    requires
                        rest == (rest / 256) * 256 + digit,
                ;
            }
            rest = rest / 256;
        }
        proof {
            reveal_with_fuel(pow256, 17);
            let tail = bytes@.subrange(16, 32);
            let head = bytes@.subrange(0, 16);
            lemma_be_value_bound(tail);
            assert(rest * pow256(16) >= pow256(16) || rest == 0) by (nonlinear_arith)
                requires
                    rest >= 0,
                    pow256(16) >= 0,
            ;
            assert(rest == 0);
            assert(bytes@ =~= head + tail);
            lemma_be_value_concat(head, tail);
            lemma_be_value_zeros(head);
        }
        Felt { bytes }
    }

    /// The element of a small number.
    pub fn from_u64(x: u64) -> (r: Felt)
        ensures
            r@ == x,
    {
        Felt::from_u128(x as u128)
    }

    /// The multiplicative identity.
    pub fn one() -> (r: Felt)
        ensures
            r@ == 1,
    {
        Felt::from_u128(1)
    }

    /// The sum in the field.
    pub fn plus(&self, other: &Felt) -> (r: Felt)
        ensures
            r@ == (self@ + other@) % prime(),
    {
        field_add(self, other)
    }

    /// The difference in the field.
    pub fn minus(&self, other: &Felt) -> (r: Felt)
        ensures
            r@ == (self@ + prime() - other@) % (prime() as int),
    {
        field_sub(self, other)
    }

    /// The element of a small number with a sign: a negative number stands
    /// for the prime less its size.
    pub fn from_i32(x: i32) -> (r: Felt)
        ensures
            r@ == (if x >= 0 {
                x as int
            } else {
                prime() + x
            }),
    {
        if x >= 0 {
            Felt::from_u128(x as u128)
        } else {
            let size = Felt::from_u128((0 - x as i64) as u128);
            field_sub(&Felt::zero(), &size)
        }
    }

    /// The element that a text denotes in base 16, where it denotes one.
    pub fn from_hex(text: &str) -> (r: Option<Felt>)
        ensures
            match r {
                Some(f) => hex_number(text@) == Some(f@),
                None => hex_number(text@).is_none(),
            },
    {
        field_from_hex(text)
    }

    /// The remainder of dividing the element by another, both taken as
    /// natural numbers.
    pub fn mod_floor(&self, modulus: &Felt) -> (r: Felt)
        requires
            modulus@ != 0,
        ensures
            r@ == self@ % modulus@,
    {
        field_mod_floor(self, modulus)
    }

    /// The element as a `u128`, where it is small enough.
    pub fn to_u128(&self) -> (r: Option<u128>)
        ensures
            r == (if self@ <= u128::MAX {
                Some(self@ as u128)
            } else {
                None
            }),
    {
        let mut i: usize = 0;
        while i < 16
            invariant
                0 <= i <= 16,
                forall|j: int| 0 <= j < i ==> self.bytes@[j] == 0,
            decreases 16 - i,
        {
            if self.bytes[i] != 0 {
                proof {
                    let head = self.bytes@.subrange(0, i + 1);
                    let tail = self.bytes@.subrange(i + 1, 32);
                    assert(self.bytes@ =~= head + tail);
                    lemma_be_value_concat(head, tail);
                    assert(head.last() == self.bytes@[i as int]);
                    assert(be_value(head) >= 1);
                    lemma_pow256_monotone(16, tail.len());
                    reveal_with_fuel(pow256, 17);
                    assert(be_value(head) * pow256(tail.len()) >= pow256(tail.len()))
                        by (nonlinear_arith)
                        requires
                            be_value(head) >= 1,
                            pow256(tail.len()) > 0,
                    ;
                }
                return None;
            }
            i += 1;
        }
        let mut value: u128 = 0;
        let mut i: usize = 16;
        assert(self.bytes@.subrange(16, 16) =~= Seq::<u8>::empty());
        while i < 32
            invariant
                16 <= i <= 32,
                value == be_value(self.bytes@.subrange(16, i as int)),
            decreases 32 - i,
        {
            proof {
                let seen = self.bytes@.subrange(16, i as int);
                lemma_be_value_bound(seen);
                lemma_pow256_monotone(seen.len(), 15);
                reveal_with_fuel(pow256, 17);
                let next = self.bytes@.subrange(16, i + 1);
                assert(next.drop_last() =~= seen);
                assert(next.last() == self.bytes@[i as int]);
            }
            value = value * 256 + self.bytes[i] as u128;
            i += 1;
        }
        proof {
            let head = self.bytes@.subrange(0, 16);
            let tail = self.bytes@.subrange(16, 32);
            assert(self.bytes@ =~= head + tail);
            lemma_be_value_concat(head, tail);
            lemma_be_value_zeros(head);
        }
        Some(value)
    }

    /// The element as a `u64`, where it is small enough.
    pub fn to_u64(&self) -> (r: Option<u64>)
        ensures
            r == (if self@ <= u64::MAX { Some(self@ as u64) } else { None }),
    {
        match self.to_u128() {
            Some(v) => if v <= u64::MAX as u128 {
                Some(v as u64)
            } else {
                None
            },
            None => None,
        }
    }

    /// The element as a `usize`, where it is small enough.
    pub fn to_usize(&self) -> (r: Option<usize>)
        ensures
            r == (if self@ <= usize::MAX { Some(self@ as usize) } else { None }),
    {
        match self.to_u128() {
            Some(v) => if v <= usize::MAX as u128 {
                Some(v as usize)
            } else {
                None
            },
            None => None,
        }
    }

    /// The element written in decimal.
    pub fn to_decimal_string(&self) -> (r: String)
        ensures
            r@ == decimal_digits(self@),
    {
        field_to_decimal(self)
    }
}

} // verus!
