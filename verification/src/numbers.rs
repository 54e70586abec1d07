//! Decimal text for unsigned integers: a verified writer and reader used by
//! the configuration snapshot, with the round-trip proof between them.

use vstd::prelude::*;

use crate::text::is_digit;

verus! {

/// The decimal digits of `n`, most significant first.
pub open spec fn dec_rep(n: nat) -> Seq<u8>
    decreases n,
{
    if n < 10 {
        seq![(n + '0' as u8) as u8]
    } else {
        dec_rep(n / 10) + seq![(n % 10 + '0' as u8) as u8]
    }
}

/// The value of a digit sequence, most significant first.
pub open spec fn dec_val(s: Seq<u8>) -> nat
    decreases s.len(),
{
    if s.len() == 0 {
        0
    } else {
        dec_val(s.drop_last()) * 10 + (s.last() - '0' as u8) as nat
    }
}

/// Every byte of a decimal representation is a digit, and there is at
/// least one.
pub proof fn lemma_dec_rep_digits(n: nat)
    ensures
        dec_rep(n).len() >= 1,
        forall|i: int| 0 <= i < dec_rep(n).len() ==> is_digit(#[trigger] dec_rep(n)[i]),
    decreases n,
{
    if n >= 10 {
        lemma_dec_rep_digits(n / 10);
    }
}

/// Reading the written digits of `n` gives back `n`.
pub proof fn lemma_dec_round_trip(n: nat)
    ensures
        dec_val(dec_rep(n)) == n,
    decreases n,
{
    if n < 10 {
        let d = (n + '0' as u8) as u8;
        assert(dec_rep(n) == seq![d]);
        assert(seq![d].drop_last() =~= Seq::<u8>::empty());
        assert(seq![d].last() == d);
        assert(dec_val(seq![d]) == dec_val(Seq::<u8>::empty()) * 10 + (d - '0' as u8) as nat);
        assert(dec_val(Seq::<u8>::empty()) == 0);
        assert((d - '0' as u8) as nat == n);
    } else {
        lemma_dec_round_trip(n / 10);
        assert(dec_rep(n).drop_last() =~= dec_rep(n / 10));
        assert(dec_rep(n).last() == (n % 10 + '0' as u8) as u8);
        assert(dec_val(dec_rep(n)) == (n / 10) * 10 + n % 10);
        assert(n / 10 * 10 + n % 10 == n) by {
            vstd::arithmetic::div_mod::lemma_fundamental_div_mod(n as int, 10);
        };
    }
}

/// A longer digit prefix never has a smaller value.
pub proof fn lemma_dec_val_prefix_monotone(s: Seq<u8>, i: int, j: int)
    requires
        0 <= i <= j <= s.len(),
    ensures
        dec_val(s.take(i)) <= dec_val(s.take(j)),
    decreases j - i,
{
    if i < j {
        lemma_dec_val_prefix_monotone(s, i, j - 1);
        assert(s.take(j).drop_last() =~= s.take(j - 1));
        assert(dec_val(s.take(j)) == dec_val(s.take(j - 1)) * 10 + (s.take(j).last() - '0'
            as u8) as nat);
    }
}

/// Write `n` in decimal.
pub fn format_u64(n: u64) -> (r: Vec<u8>)
    ensures
        r@ == dec_rep(n as nat),
{
    let mut rev: Vec<u8> = Vec::new();
    let mut cur: u64 = n;
    if cur == 0 {
        let mut out: Vec<u8> = Vec::new();
        out.push('0' as u8);
        proof {
            assert(out@ =~= dec_rep(0));
        }
        return out;
    }
    // Collect the digits low-order first.
    while cur > 0
        invariant
            cur > 0 ==> dec_rep(n as nat) =~= dec_rep(cur as nat) + rev@.reverse(),
            cur == 0 ==> dec_rep(n as nat) =~= rev@.reverse(),
        decreases cur,
    {
        let d: u8 = (cur % 10) as u8;
        let ghost old_rev = rev@;
        rev.push(d + '0' as u8);
        proof {
            assert(rev@.reverse() =~= seq![(d + '0' as u8) as u8] + old_rev.reverse());
            if cur >= 10 {
                assert(dec_rep(cur as nat) == dec_rep((cur / 10) as nat) + seq![(cur as nat % 10
                    + '0' as u8) as u8]);
            } else {
                assert(dec_rep(cur as nat) == seq![(cur as nat + '0' as u8) as u8]);
            }
        }
        cur = cur / 10;
    }
    // Reverse into the output.
    let mut out: Vec<u8> = Vec::new();
    let mut i: usize = 0;
    while i < rev.len()
        invariant
            0 <= i <= rev@.len(),
            out@.len() == i,
            forall|k: int| 0 <= k < i ==> out@[k] == rev@[rev@.len() - 1 - k],
            dec_rep(n as nat) =~= rev@.reverse(),
        decreases rev@.len() - i,
    {
        out.push(rev[rev.len() - 1 - i]);
        i = i + 1;
    }
    proof {
        assert(out@ =~= rev@.reverse());
    }
    out
}

/// Read a decimal digit sequence as a `u64`. Succeeds exactly on a
/// non-empty all-digit input whose value fits.
pub fn parse_u64(s: &[u8]) -> (r: Option<u64>)
    ensures
        match r {
            Some(v) => crate::grammar::is_count(s@) && v as nat == dec_val(s@) && dec_val(s@)
                <= u64::MAX,
            None => !crate::grammar::is_count(s@) || dec_val(s@) > u64::MAX,
        },
{
    if s.len() == 0 {
        return None;
    }
    let mut acc: u64 = 0;
    let mut i: usize = 0;
    while i < s.len()
        invariant
            0 <= i <= s@.len(),
            forall|j: int| 0 <= j < i ==> is_digit(s@[j]),
            acc as nat == dec_val(s@.take(i as int)),
        decreases s@.len() - i,
    {
        let b = s[i];
        if !('0' as u8 <= b && b <= '9' as u8) {
            return None;
        }
        let d: u64 = (b - '0' as u8) as u64;
        let next = acc.checked_mul(10);
        match next {
            None => {
                proof {
                    assert(dec_val(s@.take(i + 1)) == dec_val(s@.take(i as int)) * 10 + (s@[i
                        as int] - '0' as u8) as nat) by {
                        assert(s@.take(i + 1).drop_last() =~= s@.take(i as int));
                    };
                    lemma_dec_val_prefix_monotone(s@, i + 1, s@.len() as int);
                    assert(s@.take(s@.len() as int) =~= s@);
                }
                return None;
            },
            Some(shifted) => {
                let wide = shifted.checked_add(d);
                match wide {
                    None => {
                        proof {
                            assert(dec_val(s@.take(i + 1)) == dec_val(s@.take(i as int)) * 10 + (
                            s@[i as int] - '0' as u8) as nat) by {
                                assert(s@.take(i + 1).drop_last() =~= s@.take(i as int));
                            };
                            lemma_dec_val_prefix_monotone(s@, i + 1, s@.len() as int);
                            assert(s@.take(s@.len() as int) =~= s@);
                        }
                        return None;
                    },
                    Some(v) => {
                        proof {
                            assert(s@.take(i + 1).drop_last() =~= s@.take(i as int));
                        }
                        acc = v;
                    },
                }
            },
        }
        i = i + 1;
    }
    proof {
        assert(s@.take(s@.len() as int) =~= s@);
    }
    Some(acc)
}

} // verus!
