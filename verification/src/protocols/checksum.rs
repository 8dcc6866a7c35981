use vstd::prelude::*;

use crate::protocols::ip::u16_be_bytes;

verus! {

/// The 16-bit big-endian word formed by bytes `2 * k` and `2 * k + 1` of `s`.
pub open spec fn word_at(s: Seq<u8>, k: int) -> nat {
    (s[2 * k] as nat) * 256 + s[2 * k + 1] as nat
}

/// Sum of the first `k` big-endian 16-bit words of `s`.
pub open spec fn words_prefix_sum(s: Seq<u8>, k: nat) -> nat
    decreases k,
{
    if k == 0 {
        0
    } else {
        words_prefix_sum(s, (k - 1) as nat) + word_at(s, k - 1)
    }
}

/// Sum of all 16-bit words of `s`; a trailing odd byte is added as it is.
pub open spec fn words_sum(s: Seq<u8>) -> nat {
    words_prefix_sum(s, s.len() / 2) + if s.len() % 2 == 1 {
        s[s.len() - 1] as nat
    } else {
        0
    }
}

/// Folds the carries above bit 16 back into the low 16 bits until none is left.
pub open spec fn fold16(x: nat) -> nat
    decreases x,
{
    if x < 0x10000 {
        x
    } else {
        proof {
            lemma_fold_step_decreases(x);
        }
        fold16(x % 0x10000 + x / 0x10000)
    }
}

pub proof fn lemma_fold_step_decreases(x: nat)
    requires
        x >= 0x10000,
    ensures
        x % 0x10000 + x / 0x10000 < x,
{
    assert(x == 0x10000 * (x / 0x10000) + x % 0x10000) by (nonlinear_arith);
    assert(x / 0x10000 >= 1) by (nonlinear_arith)
        requires
            x >= 0x10000,
    ;
}

/// The internet checksum of `s` started from `init`: the one's complement of the folded word sum.
pub open spec fn cksum16(s: Seq<u8>, init: u32) -> u16 {
    (0xffff - fold16(init as nat + words_sum(s))) as u16
}

proof fn lemma_words_prefix_sum_monotone(s: Seq<u8>, j: nat, k: nat)
    requires
        j <= k,
    ensures
        words_prefix_sum(s, j) <= words_prefix_sum(s, k),
    decreases k,
{
    if j < k {
        lemma_words_prefix_sum_monotone(s, j, (k - 1) as nat);
    }
}

proof fn lemma_fold16_bounded(x: nat)
    ensures
        fold16(x) <= 0xffff,
    decreases x,
{
    if x >= 0x10000 {
        lemma_fold_step_decreases(x);
        lemma_fold16_bounded(x % 0x10000 + x / 0x10000);
    }
}

/// Folding keeps the value modulo 0xffff, stays within 16 bits, and folds a non-zero sum to a non-zero one.
pub proof fn lemma_fold16_properties(x: nat)
    ensures
        fold16(x) <= 0xffff,
        fold16(x) % 0xffff == x % 0xffff,
        x >= 1 ==> fold16(x) >= 1,
    decreases x,
{
    if x >= 0x10000 {
        lemma_fold_step_decreases(x);
        let q = x / 0x10000;
        let r = x % 0x10000;
        let y = r + q;
        lemma_fold16_properties(y);
        assert(x == 0x10000 * q + r) by (nonlinear_arith)
            requires
                q == x / 0x10000,
                r == x % 0x10000,
        ;
        assert(x % 0xffff == y % 0xffff) by (nonlinear_arith)
            requires
                x == 0x10000 * q + r,
                y == r + q,
                q >= 0,
                r >= 0,
        ;
        assert(q >= 1) by (nonlinear_arith)
            requires
                x >= 0x10000,
                q == x / 0x10000,
        ;
    }
}

/// Writing the bytes `hi`, `lo` over word `j` changes a prefix sum that covers it by the difference of the words.
pub proof fn lemma_words_prefix_sum_set_word(s: Seq<u8>, j: int, hi: u8, lo: u8, k: nat)
    requires
        0 <= j,
        2 * j + 1 < s.len(),
        2 * k <= s.len(),
    ensures
        ({
            let t = s.update(2 * j, hi).update(2 * j + 1, lo);
            words_prefix_sum(t, k) + (if j < k {
                word_at(s, j)
            } else {
                0
            }) == words_prefix_sum(s, k) + (if j < k {
                hi as nat * 256 + lo as nat
            } else {
                0
            })
        }),
    decreases k,
{
    let t = s.update(2 * j, hi).update(2 * j + 1, lo);
    if k > 0 {
        lemma_words_prefix_sum_set_word(s, j, hi, lo, (k - 1) as nat);
        if k - 1 != j {
            assert(word_at(t, k - 1) == word_at(s, k - 1));
        } else {
            assert(word_at(t, j) == hi as nat * 256 + lo as nat);
        }
    }
}

/// Writing the bytes `hi`, `lo` over word `j` changes the word sum by the difference of the words.
pub proof fn lemma_words_sum_set_word(s: Seq<u8>, j: int, hi: u8, lo: u8)
    requires
        0 <= j,
        2 * j + 1 < s.len(),
    ensures
        words_sum(s.update(2 * j, hi).update(2 * j + 1, lo)) + word_at(s, j) == words_sum(s)
            + hi as nat * 256 + lo as nat,
{
    let t = s.update(2 * j, hi).update(2 * j + 1, lo);
    lemma_words_prefix_sum_set_word(s, j, hi, lo, s.len() / 2);
    if s.len() % 2 == 1 {
        assert(t[s.len() - 1] == s[s.len() - 1]);
    }
}

/// A message whose checksum word was zero, once that word is set to the message's checksum,
/// has a checksum of zero: this is how a receiver accepts it.
pub proof fn lemma_cksum16_of_filled_message(s: Seq<u8>, j: int)
    requires
        0 <= j,
        2 * j + 1 < s.len(),
        s[2 * j] == 0,
        s[2 * j + 1] == 0,
    ensures
        ({
            let c = cksum16(s, 0);
            cksum16(s.update(2 * j, u16_be_bytes(c)[0]).update(2 * j + 1, u16_be_bytes(c)[1]), 0)
                == 0
        }),
{
    let x = words_sum(s);
    lemma_fold16_properties(x);
    let c = cksum16(s, 0);
    assert(c == 0xffff - fold16(x));
    let hi = (c / 256) as u8;
    let lo = (c % 256) as u8;
    assert(hi as nat * 256 + lo as nat == c);
    let t = s.update(2 * j, hi).update(2 * j + 1, lo);
    lemma_words_sum_set_word(s, j, hi, lo);
    assert(word_at(s, j) == 0);
    let y = words_sum(t);
    assert(y == x + c);
    lemma_fold16_properties(y);
    assert(y % 0xffff == 0) by (nonlinear_arith)
        requires
            y == x + 0xffff - fold16(x),
            fold16(x) % 0xffff == x % 0xffff,
            fold16(x) <= 0xffff,
    ;
    assert(y >= 1);
    assert(fold16(y) == 0xffff);
}

/// Every word is at most 0xffff, so the word sum grows at most by 0xffff per byte.
pub proof fn lemma_words_sum_bounded(s: Seq<u8>)
    ensures
        words_sum(s) <= 0xffff * s.len(),
{
    lemma_words_prefix_sum_bounded(s, s.len() / 2);
    assert(0xffff * (s.len() / 2) + 0xff <= 0xffff * s.len() || s.len() % 2 == 0) by (nonlinear_arith);
    assert(0xffff * (s.len() / 2) <= 0xffff * s.len()) by (nonlinear_arith);
}

proof fn lemma_words_prefix_sum_bounded(s: Seq<u8>, k: nat)
    ensures
        words_prefix_sum(s, k) <= 0xffff * k,
    decreases k,
{
    if k > 0 {
        lemma_words_prefix_sum_bounded(s, (k - 1) as nat);
        assert(word_at(s, k - 1) <= 0xffff);
    }
}

/// Computes the internet checksum of `data`, with `init` as the starting sum.
pub fn cksum16_from_bytes(data: &[u8], init: u32) -> (sum16: u16)
    requires
        init + words_sum(data@) <= u32::MAX,
    ensures
        sum16 == cksum16(data@, init),
{
    let mut sum: u32 = init;
    let word_len = data.len() / 2;
    let mut widx: usize = 0;
    while widx < word_len
        invariant
            word_len == data@.len() / 2,
            data@.len() == data.len(),
            widx <= word_len,
            sum == init + words_prefix_sum(data@, widx as nat),
            init + words_sum(data@) <= u32::MAX,
        decreases word_len - widx,
    {
        assert(widx * 2 + 1 < data@.len());
        let idx = widx + widx;
        proof {
            lemma_words_prefix_sum_monotone(data@, (widx + 1) as nat, word_len as nat);
        }
        sum = sum + (data[idx] as u32) * 256 + data[idx + 1] as u32;
        widx = widx + 1;
    }
    if data.len() % 2 == 1 {
        sum = sum + data[data.len() - 1] as u32;
    }
    assert(sum == init + words_sum(data@));
    let ghost total: nat = sum as nat;
    while sum >= 0x10000
        invariant
            fold16(sum as nat) == fold16(total),
        decreases sum,
    {
        proof {
            lemma_fold_step_decreases(sum as nat);
        }
        sum = sum % 0x10000 + sum / 0x10000;
    }
    0xffff - sum as u16
}

} // verus!
