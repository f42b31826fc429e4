//! Field elements of the Starknet prime field, held as 32 big-endian bytes.

use vstd::prelude::*;

verus! {

/// `256^k`.
pub open spec fn pow256(k: nat) -> nat
    decreases k,
{
    if k == 0 {
        1
    } else {
        256 * pow256((k - 1) as nat)
    }
}

/// The number that a big-endian byte string denotes.
pub open spec fn be_value(bytes: Seq<u8>) -> nat
    decreases bytes.len(),
{
    if bytes.len() == 0 {
        0
    } else {
        be_value(bytes.drop_last()) * 256 + bytes.last() as nat
    }
}

/// The field's modulus, `2^251 + 17 * 2^192 + 1`, as 32 big-endian bytes.
pub open spec fn prime_bytes() -> Seq<u8> {
    seq![
        0x08u8, 0, 0, 0, 0, 0, 0, 0x11,
        0, 0, 0, 0, 0, 0, 0, 0,
        0, 0, 0, 0, 0, 0, 0, 0,
        0, 0, 0, 0, 0, 0, 0, 0x01,
    ]
}

/// The field's modulus.
pub open spec fn felt_prime() -> nat {
    be_value(prime_bytes())
}

/// `256^k` is not zero.
pub proof fn lemma_pow256_positive(k: nat)
    ensures
        pow256(k) > 0,
    decreases k,
{
    if k > 0 {
        lemma_pow256_positive((k - 1) as nat);
    }
}

/// `256^(a + b)` is `256^a * 256^b`.
pub proof fn lemma_pow256_add(a: nat, b: nat)
    ensures
        pow256(a + b) == pow256(a) * pow256(b),
    decreases a,
{
    if a == 0 {
        assert(pow256(0) == 1);
    } else {
        lemma_pow256_add((a - 1) as nat, b);
        assert(pow256(a + b) == 256 * pow256((a + b - 1) as nat));
        assert(256 * (pow256((a - 1) as nat) * pow256(b)) == (256 * pow256((a - 1) as nat))
            * pow256(b)) by (nonlinear_arith);
    }
}

/// A byte string of `n` bytes denotes a number below `256^n`.
pub proof fn lemma_be_value_bound(bytes: Seq<u8>)
    ensures
        be_value(bytes) < pow256(bytes.len()),
    decreases bytes.len(),
{
    if bytes.len() > 0 {
        lemma_be_value_bound(bytes.drop_last());
    }
}

/// Appending `b` shifts the value of `a` by the length of `b`.
pub proof fn lemma_be_value_concat(a: Seq<u8>, b: Seq<u8>)
    ensures
        be_value(a + b) == be_value(a) * pow256(b.len()) + be_value(b),
    decreases b.len(),
{
    if b.len() == 0 {
        assert(a + b =~= a);
        assert(pow256(0) == 1);
        assert(be_value(b) == 0);
        assert(be_value(a) * 1 == be_value(a));
    } else {
        lemma_be_value_concat(a, b.drop_last());
        assert((a + b).drop_last() =~= a + b.drop_last());
        assert((a + b).last() == b.last());
        let p = pow256((b.len() - 1) as nat);
        let front = be_value(b.drop_last());
        assert(b.drop_last().len() == b.len() - 1);
        assert(pow256(b.len()) == 256 * p);
        assert(be_value(a + b.drop_last()) == be_value(a) * p + front);
        assert(be_value(a + b) == be_value(a + b.drop_last()) * 256 + b.last() as nat);
        assert(be_value(b) == front * 256 + b.last() as nat);
        assert((be_value(a) * p + front) * 256 == be_value(a) * (256 * p) + front * 256)
            by (nonlinear_arith);
        assert(be_value(a) * pow256(b.len()) == be_value(a) * (256 * p));
    }
}

/// A byte string of zeros denotes zero, and only such a string does.
pub proof fn lemma_be_value_zero(bytes: Seq<u8>)
    ensures
        be_value(bytes) == 0 <==> (forall|i: int| 0 <= i < bytes.len() ==> bytes[i] == 0),
    decreases bytes.len(),
{
    if bytes.len() > 0 {
        let front = bytes.drop_last();
        lemma_be_value_zero(front);
        if be_value(bytes) == 0 {
            assert forall|i: int| 0 <= i < bytes.len() implies bytes[i] == 0 by {
                if i < front.len() {
                    assert(front[i] == bytes[i]);
                }
            }
        }
        if forall|i: int| 0 <= i < bytes.len() ==> bytes[i] == 0 {
            assert forall|i: int| 0 <= i < front.len() implies front[i] == 0 by {
                assert(front[i] == bytes[i]);
            }
        }
    }
}

/// Two byte strings of one length that denote one number are equal.
pub proof fn lemma_be_value_injective(a: Seq<u8>, b: Seq<u8>)
    requires
        a.len() == b.len(),
        be_value(a) == be_value(b),
    ensures
        a == b,
    decreases a.len(),
{
    if a.len() > 0 {
        lemma_be_value_injective(a.drop_last(), b.drop_last());
        assert(a =~= a.drop_last().push(a.last()));
        assert(b =~= b.drop_last().push(b.last()));
    } else {
        assert(a =~= b);
    }
}

/// Where two byte strings of one length first differ, the smaller byte
/// belongs to the smaller number.
pub proof fn lemma_be_value_first_difference(a: Seq<u8>, b: Seq<u8>, i: int)
    requires
        a.len() == b.len(),
        0 <= i < a.len(),
        a.subrange(0, i) == b.subrange(0, i),
        a[i] < b[i],
    ensures
        be_value(a) < be_value(b),
{
    let n = a.len();
    let rest = (n - i - 1) as nat;
    let ah = a.subrange(0, i + 1);
    let bh = b.subrange(0, i + 1);
    let at = a.subrange(i + 1, n as int);
    let bt = b.subrange(i + 1, n as int);
    assert(a =~= ah + at);
    assert(b =~= bh + bt);
    lemma_be_value_concat(ah, at);
    lemma_be_value_concat(bh, bt);
    lemma_be_value_bound(at);
    assert(ah.drop_last() =~= a.subrange(0, i));
    assert(bh.drop_last() =~= b.subrange(0, i));
    assert(ah.last() == a[i]);
    assert(bh.last() == b[i]);
    assert(be_value(ah) + 1 <= be_value(bh));
    let p = pow256(rest);
    let x = be_value(ah);
    let y = be_value(bh);
    assert(x * p + p <= y * p) by (nonlinear_arith)
        requires
            x + 1 <= y,
            p >= 0,
    ;
}

/// An element of the Starknet prime field.
///
/// The element is held as the 32 big-endian bytes of its canonical
/// representative, which is below the field's modulus.
#[derive(Clone, Copy, Debug)]
pub struct Felt {
    bytes: [u8; 32],
}

impl View for Felt {
    type V = nat;

    /// The canonical representative.
    closed spec fn view(&self) -> nat {
        be_value(self.bytes@)
    }
}

impl Felt {
    #[verifier::type_invariant]
    spec fn canonical(self) -> bool {
        be_value(self.bytes@) < felt_prime()
    }

    /// The 32 big-endian bytes of the canonical representative.
    pub closed spec fn spec_bytes(self) -> Seq<u8> {
        self.bytes@
    }

    /// The bytes are 32 and denote the element's value.
    pub proof fn lemma_bytes(self)
        ensures
            self.spec_bytes().len() == 32,
            be_value(self.spec_bytes()) == self@,
    {
    }

    /// Elements of one value are one element.
    pub proof fn lemma_view_injective(self, other: Felt)
        requires
            self@ == other@,
        ensures
            self == other,
    {
        lemma_be_value_injective(self.bytes@, other.bytes@);
        assert(self.bytes@ =~= other.bytes@);
        assert(self.bytes == other.bytes);
    }

    /// The element zero.
    pub fn zero() -> (r: Felt)
        ensures
            r@ == 0,
    {
        let bytes = [0u8; 32];
        proof {
            lemma_be_value_zero(bytes@);
            lemma_prime_positive();
        }
        Felt { bytes }
    }

    /// The element of value `n`.
    pub fn from_u64(n: u64) -> (r: Felt)
        ensures
            r@ == n,
    {
        let mut bytes = [0u8; 32];
        let mut rest: u64 = n;
        let mut i: usize = 32;
        proof {
            assert(bytes@.subrange(32, 32) =~= Seq::<u8>::empty());
            assert(be_value(Seq::<u8>::empty()) == 0);
            assert(pow256(0) == 1);
            assert(rest * 1 == rest);
        }
        while i > 24
            invariant
                24 <= i <= 32,
                forall|j: int| 0 <= j < i ==> bytes@[j] == 0,
                be_value(bytes@.subrange(i as int, 32)) + rest * pow256((32 - i) as nat) == n,
            decreases i,
        {
            let ghost before = bytes@;
            let ghost shift = pow256((32 - i) as nat);
            let digit: u8 = (rest % 256) as u8;
            let next: u64 = rest / 256;
            i -= 1;
            bytes[i] = digit;
            proof {
                let tail = before.subrange(i + 1, 32);
                assert(bytes@.subrange(i as int, 32) =~= seq![digit] + tail);
                lemma_be_value_concat(seq![digit], tail);
                assert(seq![digit].drop_last() =~= Seq::<u8>::empty());
                assert(be_value(Seq::<u8>::empty()) == 0);
                assert(seq![digit].last() == digit);
                assert(be_value(seq![digit]) == digit);
                assert(pow256((32 - i) as nat) == 256 * shift);
                assert(digit * shift + next * (256 * shift) == (digit + 256 * next) * shift)
                    by (nonlinear_arith);
            }
            rest = next;
        }
        proof {
            let head = bytes@.subrange(0, 24);
            let tail = bytes@.subrange(24, 32);
            assert(pow256(8) == 0x1_0000_0000_0000_0000) by {
                reveal_with_fuel(pow256, 9);
            }
            assert(rest == 0) by (nonlinear_arith)
                requires
                    rest * pow256(8) <= n,
                    n < 0x1_0000_0000_0000_0000,
                    pow256(8) == 0x1_0000_0000_0000_0000,
            ;
            assert(bytes@ =~= head + tail);
            lemma_be_value_concat(head, tail);
            lemma_be_value_zero(head);
            assert(be_value(bytes@) == n);
            assert(bytes@.subrange(0, 0) =~= prime_bytes().subrange(0, 0));
            lemma_be_value_first_difference(bytes@, prime_bytes(), 0);
        }
        Felt { bytes }
    }

    /// The element of value `n`.
    pub fn from_usize(n: usize) -> (r: Felt)
        ensures
            r@ == n,
    {
        Felt::from_u64(n as u64)
    }

    /// The element that 32 big-endian bytes denote, if they denote a number
    /// below the field's modulus.
    pub fn from_bytes_be(bytes: [u8; 32]) -> (r: Option<Felt>)
        ensures
            r is Some <==> be_value(bytes@) < felt_prime(),
            r matches Some(f) ==> f@ == be_value(bytes@) && f.spec_bytes() == bytes@,
    {
        let mut i: usize = 0;
        while i < 32
            invariant
                i <= 32,
                bytes@.subrange(0, i as int) == prime_bytes().subrange(0, i as int),
            decreases 32 - i,
        {
            let limit = prime_byte(i);
            if bytes[i] < limit {
                proof {
                    lemma_be_value_first_difference(bytes@, prime_bytes(), i as int);
                }
                return Some(Felt { bytes });
            }
            if bytes[i] > limit {
                proof {
                    lemma_be_value_first_difference(prime_bytes(), bytes@, i as int);
                }
                return None;
            }
            proof {
                assert(bytes@.subrange(0, i + 1) =~= bytes@.subrange(0, i as int).push(
                    bytes@[i as int],
                ));
                assert(prime_bytes().subrange(0, i + 1) =~= prime_bytes().subrange(
                    0,
                    i as int,
                ).push(prime_bytes()[i as int]));
            }
            i += 1;
        }
        proof {
            assert(bytes@ =~= bytes@.subrange(0, 32));
            assert(prime_bytes() =~= prime_bytes().subrange(0, 32));
        }
        None
    }

    /// The element that 32 big-endian bytes below the modulus denote.
    pub(crate) fn from_canonical_bytes(bytes: [u8; 32]) -> (r: Felt)
        requires
            be_value(bytes@) < felt_prime(),
        ensures
            r@ == be_value(bytes@),
            r.spec_bytes() == bytes@,
    {
        Felt { bytes }
    }

    /// The 32 big-endian bytes of the element.
    pub fn to_bytes_be(&self) -> (r: [u8; 32])
        ensures
            r@ == self.spec_bytes(),
            be_value(r@) == self@,
            be_value(r@) < felt_prime(),
    {
        proof {
            use_type_invariant(self);
        }
        self.bytes
    }

    /// Whether the element is zero.
    pub fn is_zero(&self) -> (r: bool)
        ensures
            r == (self@ == 0),
    {
        let mut i: usize = 0;
        while i < 32
            invariant
                i <= 32,
                forall|j: int| 0 <= j < i ==> self.bytes@[j] == 0,
            decreases 32 - i,
        {
            if self.bytes[i] != 0 {
                proof {
                    lemma_be_value_zero(self.bytes@);
                }
                return false;
            }
            i += 1;
        }
        proof {
            lemma_be_value_zero(self.bytes@);
        }
        true
    }

    /// Whether two elements are equal.
    pub fn equals(&self, other: &Felt) -> (r: bool)
        ensures
            r == (self@ == other@),
            r == (*self == *other),
    {
        let mut i: usize = 0;
        while i < 32
            invariant
                i <= 32,
                forall|j: int| 0 <= j < i ==> self.bytes@[j] == other.bytes@[j],
            decreases 32 - i,
        {
            if self.bytes[i] != other.bytes[i] {
                proof {
                    if self@ == other@ {
                        self.lemma_view_injective(*other);
                    }
                }
                return false;
            }
            i += 1;
        }
        proof {
            assert(self.bytes@ =~= other.bytes@);
            assert(self.bytes == other.bytes);
        }
        true
    }
}

/// The byte of the modulus at index `i`.
fn prime_byte(i: usize) -> (r: u8)
    requires
        i < 32,
    ensures
        r == prime_bytes()[i as int],
{
    if i == 0 {
        0x08
    } else if i == 7 {
        0x11
    } else if i == 31 {
        0x01
    } else {
        0
    }
}

/// The modulus is `2^251 + 17 * 2^192 + 1`.
pub proof fn lemma_prime_value()
    ensures
        felt_prime() == 0x800000000000011000000000000000000000000000000000000000000000001,
{
    let p = prime_bytes();
    let head = p.subrange(0, 8);
    let tail = p.subrange(8, 32);
    assert(p =~= head + tail);
    lemma_be_value_concat(head, tail);
    assert(head =~= seq![8u8, 0, 0, 0, 0, 0, 0, 0x11]);
    assert(be_value(head) == 0x800000000000011) by {
        reveal_with_fuel(be_value, 9);
    }
    let zeros = tail.drop_last();
    lemma_be_value_zero(zeros);
    assert(tail.last() == 1);
    assert(be_value(tail) == 1);
    assert(pow256(24) == 0x1000000000000000000000000000000000000000000000000) by {
        reveal_with_fuel(pow256, 25);
    }
    assert(0x800000000000011 * 0x1000000000000000000000000000000000000000000000000 + 1
        == 0x800000000000011000000000000000000000000000000000000000000000001) by (nonlinear_arith);
}

/// The modulus is not zero.
pub proof fn lemma_prime_positive()
    ensures
        felt_prime() > 0,
{
    let p = prime_bytes();
    lemma_be_value_zero(p);
    assert(p[0] == 8);
}

/// The character of a decimal digit.
pub open spec fn digit_char(d: nat) -> char {
    ((d + 48) as u8) as char
}

/// The decimal representation of a number: its digits, most significant
/// first, without leading zeros; `"0"` for zero.
pub open spec fn decimal_digits(n: nat) -> Seq<char>
    decreases n,
{
    if n < 10 {
        seq![digit_char(n)]
    } else {
        decimal_digits(n / 10).push(digit_char(n % 10))
    }
}

/// Formats, by its `Display`, the `starknet::core::types::FieldElement` that
/// the big-endian bytes denote. `None` if they denote no element.
///
/// Trusted: the text is the element's value in decimal, without sign,
/// padding or leading zeros.
#[verifier::external_body]
fn decimal_of_bytes(bytes: &[u8; 32]) -> (r: Option<String>)
    ensures
        r is Some <==> be_value(bytes@) < felt_prime(),
        r matches Some(text) ==> text@ == decimal_digits(be_value(bytes@)),
{
    match starknet::core::types::FieldElement::from_bytes_be(bytes) {
        Ok(felt) => Some(felt.to_string()),
        Err(_) => None,
    }
}

impl Felt {
    /// The element's value in decimal.
    pub fn to_string(&self) -> (r: String)
        ensures
            r@ == decimal_digits(self@),
    {
        let bytes = self.to_bytes_be();
        decimal_of_bytes(&bytes).unwrap()
    }
}

} // verus!
