//! A 256-bit unsigned machine word, the value space of the source machine's
//! operand stack. Compile-time constants are read out of an opcode's embedded
//! byte string, big-endian.

use vstd::prelude::*;

verus! {

/// A 256-bit unsigned integer, stored as four 64-bit limbs with `limb3`
/// the most significant.
#[derive(Clone, Copy, PartialEq, Eq, Structural, Debug)]
pub struct Word {
    pub limb3: u64,
    pub limb2: u64,
    pub limb1: u64,
    pub limb0: u64,
}

/// 256 raised to `k`.
pub open spec fn pow256(k: nat) -> nat
    decreases k,
{
    if k == 0 {
        1
    } else {
        256 * pow256((k - 1) as nat)
    }
}

/// The unsigned integer denoted by a byte string read big-endian.
pub open spec fn be_value(s: Seq<u8>) -> nat
    decreases s.len(),
{
    if s.len() == 0 {
        0
    } else {
        (be_value(s.drop_last()) * 256 + s.last()) as nat
    }
}

/// `s` padded with leading zero bytes to a length of 32.
pub open spec fn pad32(s: Seq<u8>) -> Seq<u8>
    recommends
        s.len() <= 32,
{
    Seq::new((32 - s.len()) as nat, |i: int| 0u8) + s
}

/// A 64-bit limb read big-endian out of an 8-byte string.
pub open spec fn be_limb(s: Seq<u8>) -> u64
    recommends
        s.len() == 8,
{
    be_value(s) as u64
}

impl Word {
    /// The integer value of the word.
    pub open spec fn as_nat(self) -> nat {
        (self.limb3 * pow256(24) + self.limb2 * pow256(16) + self.limb1 * pow256(8)
            + self.limb0) as nat
    }

    /// The word holding the big-endian value of a byte string of at most
    /// 32 bytes.
    pub open spec fn spec_from_be(s: Seq<u8>) -> Word
        recommends
            s.len() <= 32,
    {
        let p = pad32(s);
        (Word {
            limb3: be_limb(p.subrange(0, 8)),
            limb2: be_limb(p.subrange(8, 16)),
            limb1: be_limb(p.subrange(16, 24)),
            limb0: be_limb(p.subrange(24, 32)),
        })
    }

    /// The word holding a 64-bit value.
    pub open spec fn spec_from_u64(v: u64) -> Word {
        (Word { limb3: 0, limb2: 0, limb1: 0, limb0: v })
    }

    /// Embed a 64-bit value.
    pub fn from_u64(v: u64) -> (r: Word)
        ensures
            r == Word::spec_from_u64(v),
            r.as_nat() == v,
    {
        Word { limb3: 0, limb2: 0, limb1: 0, limb0: v }
    }

    /// Read a word out of a byte string of at most 32 bytes, big-endian.
    pub fn from_big_endian(bytes: &[u8]) -> (r: Word)
        requires
            bytes@.len() <= 32,
        ensures
            r == Word::spec_from_be(bytes@),
            r.as_nat() == be_value(bytes@),
    {
        let n = bytes.len();
        let mut p: Vec<u8> = Vec::new();
        let mut i: usize = 0;
        while i < 32 - n
            invariant
                n == bytes@.len() <= 32,
                i <= 32 - n,
                p@ =~= Seq::new(i as nat, |k: int| 0u8),
            decreases 32 - n - i,
        {
            p.push(0);
            proof {
                assert(p@ =~= Seq::new((i + 1) as nat, |k: int| 0u8));
            }
            i += 1;
        }
        let mut j: usize = 0;
        while j < n
            invariant
                n == bytes@.len() <= 32,
                j <= n,
                p@ =~= Seq::new((32 - n) as nat, |k: int| 0u8) + bytes@.take(j as int),
            decreases n - j,
        {
            p.push(bytes[j]);
            proof {
                assert(p@ =~= Seq::new((32 - n) as nat, |k: int| 0u8) + bytes@.take(
                    j as int + 1,
                ));
            }
            j += 1;
        }
        proof {
            assert(bytes@.take(n as int) =~= bytes@);
            assert(p@ =~= pad32(bytes@));
        }
        let limb3 = be_limb_at(&p, 0);
        let limb2 = be_limb_at(&p, 8);
        let limb1 = be_limb_at(&p, 16);
        let limb0 = be_limb_at(&p, 24);
        let r = Word { limb3, limb2, limb1, limb0 };
        proof {
            lemma_be_value_bound(p@.subrange(0, 8));
            lemma_be_value_bound(p@.subrange(8, 16));
            lemma_be_value_bound(p@.subrange(16, 24));
            lemma_be_value_bound(p@.subrange(24, 32));
            reveal_with_fuel(pow256, 9);
            lemma_spec_from_be_value(bytes@);
        }
        r
    }
}

/// Read one 64-bit limb big-endian from 8 bytes of `p` starting at `off`.
fn be_limb_at(p: &Vec<u8>, off: usize) -> (r: u64)
    requires
        off + 8 <= p@.len(),
    ensures
        r as nat == be_value(p@.subrange(off as int, off as int + 8)),
{
    let plen: usize = p.len();
    let mut r: u64 = 0;
    let mut j: usize = 0;
    while j < 8
        invariant
            j <= 8,
            off + 8 <= plen == p@.len(),
            r as nat == be_value(p@.subrange(off as int, off as int + j as int)),
            (r as nat) < pow256(j as nat),
        decreases 8 - j,
    {
        proof {
            lemma_pow256_increases(j as nat, 7);
            reveal_with_fuel(pow256, 9);
        }
        r = r * 256 + (p[off + j] as u64);
        proof {
            assert(p@.subrange(off as int, off as int + j as int + 1).drop_last() =~= p@.subrange(
                off as int,
                off as int + j as int,
            ));
            assert(p@.subrange(off as int, off as int + j as int + 1).last() == p@[off as int
                + j as int]);
        }
        j += 1;
    }
    r
}

/// `pow256` is monotone.
pub proof fn lemma_pow256_increases(a: nat, b: nat)
    requires
        a <= b,
    ensures
        pow256(a) <= pow256(b),
    decreases b,
{
    if a < b {
        lemma_pow256_increases(a, (b - 1) as nat);
    }
}

/// `pow256` turns addition of exponents into multiplication.
pub proof fn lemma_pow256_add(a: nat, b: nat)
    ensures
        pow256(a + b) == pow256(a) * pow256(b),
    decreases a,
{
    if a == 0 {
        assert(pow256(0) == 1);
        assert(pow256(0 + b) == 1 * pow256(b));
    } else {
        lemma_pow256_add((a - 1) as nat, b);
        assert(pow256(a + b) == 256 * pow256((a + b - 1) as nat));
        assert((a + b - 1) as nat == (a - 1) as nat + b);
        assert(pow256(a) == 256 * pow256((a - 1) as nat));
        assert(256 * (pow256((a - 1) as nat) * pow256(b)) == (256 * pow256((a - 1) as nat))
            * pow256(b)) by (nonlinear_arith);
    }
}

/// A byte string of length `n` denotes a value below `256^n`.
pub proof fn lemma_be_value_bound(s: Seq<u8>)
    ensures
        be_value(s) < pow256(s.len()),
    decreases s.len(),
{
    if s.len() > 0 {
        lemma_be_value_bound(s.drop_last());
    }
}

/// Reading a concatenation big-endian shifts the first part by the length
/// of the second.
pub proof fn lemma_be_value_concat(a: Seq<u8>, b: Seq<u8>)
    ensures
        be_value(a + b) == be_value(a) * pow256(b.len()) + be_value(b),
    decreases b.len(),
{
    if b.len() == 0 {
        assert(a + b =~= a);
        assert(pow256(0) == 1);
    } else {
        let bl = b.drop_last();
        lemma_be_value_concat(a, bl);
        assert((a + b).drop_last() =~= a + bl);
        assert((a + b).last() == b.last());
        let x = be_value(a);
        let p = pow256((b.len() - 1) as nat);
        let y = be_value(bl);
        let t = b.last() as nat;
        assert(be_value(a + b) == be_value((a + b).drop_last()) * 256 + t);
        assert(be_value(a + b) == (x * p + y) * 256 + t);
        assert(pow256(b.len()) == 256 * p);
        assert((x * p + y) * 256 == x * (256 * p) + y * 256) by (nonlinear_arith);
        assert(x * (256 * p) == x * pow256(b.len())) by (nonlinear_arith)
            requires
                pow256(b.len()) == 256 * p,
        ;
        assert(be_value(b) == y * 256 + t);
    }
}

/// Leading zero bytes do not change the denoted value.
pub proof fn lemma_be_value_zero_prefix(z: Seq<u8>, s: Seq<u8>)
    requires
        forall|i: int| 0 <= i < z.len() ==> z[i] == 0u8,
    ensures
        be_value(z + s) == be_value(s),
{
    lemma_be_value_zeros(z);
    lemma_be_value_concat(z, s);
}

/// An all-zero byte string denotes zero.
pub proof fn lemma_be_value_zeros(z: Seq<u8>)
    requires
        forall|i: int| 0 <= i < z.len() ==> z[i] == 0u8,
    ensures
        be_value(z) == 0,
    decreases z.len(),
{
    if z.len() > 0 {
        lemma_be_value_zeros(z.drop_last());
    }
}

/// Each limb of a word is one base-2^64 digit of its value.
proof fn lemma_as_nat_digits(w: Word)
    ensures
        (w.as_nat() as int) % 0x10000000000000000 == w.limb0 as int,
        ((w.as_nat() as int) / 0x10000000000000000) % 0x10000000000000000 == w.limb1 as int,
        (((w.as_nat() as int) / 0x10000000000000000) / 0x10000000000000000) % 0x10000000000000000
            == w.limb2 as int,
        (((w.as_nat() as int) / 0x10000000000000000) / 0x10000000000000000) / 0x10000000000000000
            == w.limb3 as int,
{
    let p: int = 0x10000000000000000;
    let n: int = w.as_nat() as int;
    let q2: int = w.limb3 * p + w.limb2;
    let q1: int = q2 * p + w.limb1;
    lemma_pow256_add(8, 8);
    lemma_pow256_add(16, 8);
    reveal_with_fuel(pow256, 9);
    assert(n == q1 * p + w.limb0) by (nonlinear_arith)
        requires
            n == w.limb3 * ((p * p) * p) + w.limb2 * (p * p) + w.limb1 * p + w.limb0,
            q2 == w.limb3 * p + w.limb2,
            q1 == q2 * p + w.limb1,
    ;
    vstd::arithmetic::div_mod::lemma_fundamental_div_mod_converse(n, p, q1, w.limb0 as int);
    vstd::arithmetic::div_mod::lemma_fundamental_div_mod_converse(q1, p, q2, w.limb1 as int);
    vstd::arithmetic::div_mod::lemma_fundamental_div_mod_converse(
        q2,
        p,
        w.limb3 as int,
        w.limb2 as int,
    );
}

/// A word is determined by the integer it denotes: two words with equal
/// values have equal limbs.
pub proof fn lemma_as_nat_injective(w1: Word, w2: Word)
    ensures
        (w1.as_nat() == w2.as_nat()) <==> w1 == w2,
{
    if w1.as_nat() == w2.as_nat() {
        lemma_as_nat_digits(w1);
        lemma_as_nat_digits(w2);
    }
}

/// The word read out of a byte string denotes that string's big-endian
/// value.
pub proof fn lemma_spec_from_be_value(s: Seq<u8>)
    requires
        s.len() <= 32,
    ensures
        Word::spec_from_be(s).as_nat() == be_value(s),
{
    let p = pad32(s);
    let c3 = p.subrange(0, 8);
    let c2 = p.subrange(8, 16);
    let c1 = p.subrange(16, 24);
    let c0 = p.subrange(24, 32);
    assert(p =~= ((c3 + c2) + c1) + c0);
    lemma_be_value_concat((c3 + c2) + c1, c0);
    lemma_be_value_concat(c3 + c2, c1);
    lemma_be_value_concat(c3, c2);
    lemma_be_value_bound(c3);
    lemma_be_value_bound(c2);
    lemma_be_value_bound(c1);
    lemma_be_value_bound(c0);
    lemma_be_value_zero_prefix(Seq::new((32 - s.len()) as nat, |i: int| 0u8), s);
    let v3 = be_value(c3);
    let v2 = be_value(c2);
    let v1 = be_value(c1);
    let v0 = be_value(c0);
    let p8 = pow256(8);
    lemma_pow256_add(8, 8);
    lemma_pow256_add(16, 8);
    assert(((v3 * p8 + v2) * p8 + v1) * p8 + v0 == v3 * (p8 * p8 * p8) + v2 * (p8 * p8) + v1 * p8
        + v0) by (nonlinear_arith);
    assert(p8 * p8 * p8 == pow256(16) * p8) by (nonlinear_arith)
        requires
            p8 * p8 == pow256(16),
    ;
    reveal_with_fuel(pow256, 9);
}

} // verus!
