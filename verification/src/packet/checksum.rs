//! The Internet checksum (RFC 1071) as a mathematical function of a byte
//! sequence, and the facts about it that make a checksummed message verify.
use vstd::prelude::*;

verus! {

/// The modulus of the 32-bit accumulator in which words are summed.
pub open spec fn accumulator_modulus() -> nat {
    0x1_0000_0000
}

/// The `k`-th big-endian 16-bit word of `b`; a last odd byte is padded with zero.
pub open spec fn word_at(b: Seq<u8>, k: int) -> nat {
    (b[2 * k] as nat) * 256 + (if 2 * k + 1 < b.len() {
        b[2 * k + 1] as nat
    } else {
        0nat
    })
}

/// The sum of the first `n` words of `b`, without any carry folding.
pub open spec fn sum_words(b: Seq<u8>, n: nat) -> nat
    decreases n,
{
    if n == 0 {
        0
    } else {
        sum_words(b, (n - 1) as nat) + word_at(b, n - 1)
    }
}

/// The number of 16-bit words that cover `b`.
pub open spec fn word_count(b: Seq<u8>) -> nat {
    (b.len() + 1) / 2
}

/// The sum of all the words of `b`.
pub open spec fn word_sum(b: Seq<u8>) -> nat {
    sum_words(b, word_count(b))
}

/// Adds the carries above bit 16 back into the low 16 bits until none is left.
pub open spec fn fold_carries(x: nat) -> nat
    decreases x,
{
    if x < 0x10000 {
        x
    } else {
        proof {
            lemma_fold_step_smaller(x);
        }
        fold_carries(x % 0x10000 + x / 0x10000)
    }
}

/// The ones'-complement sum of the words of `b`, accumulated in 32 bits.
pub open spec fn ones_complement_sum(b: Seq<u8>) -> nat {
    fold_carries(word_sum(b) % accumulator_modulus())
}

/// The Internet checksum of `b`: the complement of its ones'-complement sum.
pub open spec fn internet_checksum(b: Seq<u8>) -> u16 {
    (0xffff - ones_complement_sum(b)) as u16
}

/// One folding step makes a value of 17 bits or more smaller.
pub proof fn lemma_fold_step_smaller(x: nat)
    requires
        x >= 0x10000,
    ensures
        x % 0x10000 + x / 0x10000 < x,
{
    assert(x % 0x10000 + x / 0x10000 < x) by (nonlinear_arith)
        requires
            x >= 0x10000,
    ;
}

/// Folding carries keeps a value's residue modulo 0xffff, ends within 16 bits,
/// and gives zero only for zero.
pub proof fn lemma_fold_carries(x: nat)
    ensures
        fold_carries(x) % 0xffff == x % 0xffff,
        fold_carries(x) <= 0xffff,
        x > 0 ==> fold_carries(x) > 0,
        x == 0 ==> fold_carries(x) == 0,
    decreases x,
{
    if x >= 0x10000 {
        let y = x % 0x10000 + x / 0x10000;
        lemma_fold_step_smaller(x);
        lemma_fold_carries(y);
        assert(y % 0xffff == x % 0xffff && y > 0) by (nonlinear_arith)
            requires
                y == x % 0x10000 + x / 0x10000,
                x >= 0x10000,
        ;
    }
}

/// Replacing the zero word at index 1 by `w` raises the word sum by `w`.
pub proof fn lemma_sum_words_set_second(b: Seq<u8>, hi: u8, lo: u8, n: nat)
    requires
        b.len() >= 4,
        b[2] == 0,
        b[3] == 0,
        2 <= n <= word_count(b),
    ensures
        sum_words(b.update(2, hi).update(3, lo), n) == sum_words(b, n) + (hi as nat) * 256 + lo,
    decreases n,
{
    let c = b.update(2, hi).update(3, lo);
    if n == 2 {
        assert(word_at(c, 0) == word_at(b, 0));
        assert(sum_words(c, 0) == 0 && sum_words(b, 0) == 0);
        assert(sum_words(c, 1) == word_at(b, 0));
        assert(sum_words(b, 1) == word_at(b, 0));
        assert(c[2] == hi && c[3] == lo);
        assert(word_at(c, 1) == (hi as nat) * 256 + lo);
        assert(word_at(b, 1) == 0);
    } else {
        lemma_sum_words_set_second(b, hi, lo, (n - 1) as nat);
        assert(word_at(c, n - 1) == word_at(b, n - 1));
    }
}

/// A word sum whose checksum field holds the checksum of the same message
/// with a zero field folds to 0xffff, whatever was lost to 32-bit wrapping.
pub proof fn lemma_checksummed_sum(s: nat)
    ensures
        fold_carries((s + internet_checksum_of_sum(s)) % accumulator_modulus()) == 0xffff,
{
    let m = accumulator_modulus();
    let r = s % m;
    let f = fold_carries(r);
    lemma_fold_carries(r);
    let ck = internet_checksum_of_sum(s);
    assert(ck == 0xffff - f);
    assert((s + ck) % m == (r + ck) % m) by (nonlinear_arith)
        requires
            r == s % m,
            m == 0x1_0000_0000,
    ;
    assert((r + ck) % 0xffff == 0);
    assert(r + ck < m) by {
        if r == 0 {
        } else {
            assert(r + ck <= r + 0xfffe);
        }
    }
    let v = r + ck;
    assert(v > 0);
    lemma_fold_carries(v);
    assert(fold_carries(v) == 0xffff);
}

/// The checksum computed from a word sum.
pub open spec fn internet_checksum_of_sum(s: nat) -> nat {
    (0xffff - fold_carries(s % accumulator_modulus())) as nat
}

} // verus!
