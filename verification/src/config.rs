//! The run-configuration snapshot and its serialized form: a JSON object
//! with the operator-visible fields, written and read by verified code so
//! that encoding followed by decoding reproduces the same values.

use vstd::prelude::*;

use crate::grammar::{decimal_valid, is_decimal};
use crate::numbers::{
    dec_rep, dec_val, format_u64, lemma_dec_rep_digits, lemma_dec_round_trip, parse_u64,
};
use crate::text::{
    is_digit, json_close, json_close_vec, json_mid_hatch, json_mid_hatch_vec, json_mid_users,
    json_mid_users_vec, json_open_host, json_open_host_vec,
};
use vstd::slice::{slice_subrange, slice_to_vec};

verus! {

/// A snapshot of the operator-visible run configuration: the target host,
/// the number of simulated users, and the hatch rate (kept as the exact
/// decimal text the operator supplied).
#[derive(Debug, Clone, PartialEq, Eq)]
pub struct GooseConfiguration {
    pub host: Vec<u8>,
    pub users: u64,
    pub hatch_rate: Vec<u8>,
}

/// A host byte is printable ASCII and needs no escaping in the snapshot.
pub open spec fn host_byte_ok(b: u8) -> bool {
    ' ' as u8 <= b < 0x7f && b != '"' as u8 && b != '\\' as u8
}

pub open spec fn wf_host(h: Seq<u8>) -> bool {
    forall|i: int| 0 <= i < h.len() ==> host_byte_ok(#[trigger] h[i])
}

impl GooseConfiguration {
    /// Well-formedness: the host is printable text and the hatch rate is a
    /// well-formed decimal.
    pub open spec fn wf(&self) -> bool {
        wf_host(self.host@) && is_decimal(self.hatch_rate@)
    }
}

/// The serialized snapshot as a function of the field values.
pub open spec fn json_of(host: Seq<u8>, users: nat, hatch: Seq<u8>) -> Seq<u8> {
    json_open_host() + host + json_mid_users() + dec_rep(users) + json_mid_hatch() + hatch
        + json_close()
}

/// `s` begins with the bytes `p`.
pub open spec fn starts_with(s: Seq<u8>, p: Seq<u8>) -> bool {
    s.len() >= p.len() && s.take(p.len() as int) == p
}

/// The index of the first occurrence of `b` in `s`, or `s.len()`.
pub open spec fn first_index(s: Seq<u8>, b: u8) -> int
    decreases s.len(),
{
    if s.len() == 0 {
        0
    } else if s[0] == b {
        0
    } else {
        1 + first_index(s.skip(1), b)
    }
}

/// The length of the longest all-digit prefix of `s`.
pub open spec fn digit_run(s: Seq<u8>) -> int
    decreases s.len(),
{
    if s.len() == 0 {
        0
    } else if !is_digit(s[0]) {
        0
    } else {
        1 + digit_run(s.skip(1))
    }
}

pub proof fn lemma_first_index_spec(s: Seq<u8>, b: u8)
    ensures
        0 <= first_index(s, b) <= s.len(),
        first_index(s, b) < s.len() ==> s[first_index(s, b)] == b,
        forall|j: int| 0 <= j < first_index(s, b) ==> s[j] != b,
    decreases s.len(),
{
    if s.len() > 0 && s[0] != b {
        lemma_first_index_spec(s.skip(1), b);
        assert forall|j: int| 0 <= j < first_index(s, b) implies s[j] != b by {
            if j > 0 {
                assert(s.skip(1)[j - 1] != b);
            }
        }
    }
}

/// The first occurrence is wherever a caller can point it out.
pub proof fn lemma_first_index_determined(s: Seq<u8>, b: u8, i: int)
    requires
        0 <= i <= s.len(),
        forall|j: int| 0 <= j < i ==> s[j] != b,
        i < s.len() ==> s[i] == b,
    ensures
        first_index(s, b) == i,
{
    lemma_first_index_spec(s, b);
    let f = first_index(s, b);
    if f < i {
        assert(s[f] != b);
        assert(f < s.len());
        assert(s[f] == b);
    }
    if i < f {
        assert(s[i] != b);
        assert(i < s.len());
    }
}

pub proof fn lemma_digit_run_spec(s: Seq<u8>)
    ensures
        0 <= digit_run(s) <= s.len(),
        digit_run(s) < s.len() ==> !is_digit(s[digit_run(s)]),
        forall|j: int| 0 <= j < digit_run(s) ==> is_digit(s[j]),
    decreases s.len(),
{
    if s.len() > 0 && is_digit(s[0]) {
        lemma_digit_run_spec(s.skip(1));
        assert forall|j: int| 0 <= j < digit_run(s) implies is_digit(s[j]) by {
            if j > 0 {
                assert(is_digit(s.skip(1)[j - 1]));
            }
        }
    }
}

/// The digit run ends wherever a caller can point out the first non-digit.
pub proof fn lemma_digit_run_determined(s: Seq<u8>, i: int)
    requires
        0 <= i <= s.len(),
        forall|j: int| 0 <= j < i ==> is_digit(s[j]),
        i < s.len() ==> !is_digit(s[i]),
    ensures
        digit_run(s) == i,
{
    lemma_digit_run_spec(s);
    let f = digit_run(s);
    if f < i {
        assert(!is_digit(s[f]));
        assert(is_digit(s[f]));
    }
    if i < f {
        assert(is_digit(s[i]));
    }
}

/// Reading a serialized snapshot back: the three field values, or nothing
/// when the bytes do not have the snapshot's exact shape.
pub open spec fn json_parse(s: Seq<u8>) -> Option<(Seq<u8>, nat, Seq<u8>)> {
    if !starts_with(s, json_open_host()) {
        None
    } else {
        let r1 = s.skip(json_open_host().len() as int);
        let hl = first_index(r1, '"' as u8);
        if hl == r1.len() {
            None
        } else {
            let host = r1.take(hl);
            let r2 = r1.skip(hl);
            if !starts_with(r2, json_mid_users()) {
                None
            } else {
                let r3 = r2.skip(json_mid_users().len() as int);
                let ul = digit_run(r3);
                if ul == 0 || dec_val(r3.take(ul)) > u64::MAX {
                    None
                } else {
                    let users = dec_val(r3.take(ul));
                    let r4 = r3.skip(ul);
                    if !starts_with(r4, json_mid_hatch()) {
                        None
                    } else {
                        let r5 = r4.skip(json_mid_hatch().len() as int);
                        let rl = first_index(r5, '"' as u8);
                        if rl == r5.len() {
                            None
                        } else {
                            let hatch = r5.take(rl);
                            if r5.skip(rl) != json_close() {
                                None
                            } else {
                                Some((host, users, hatch))
                            }
                        }
                    }
                }
            }
        }
    }
}

/// Encoding a well-formed snapshot and reading it back yields the same
/// field values: the snapshot format loses nothing.
#[verifier::rlimit(60)]
pub proof fn lemma_snapshot_round_trip(host: Seq<u8>, users: u64, hatch: Seq<u8>)
    requires
        wf_host(host),
        is_decimal(hatch),
    ensures
        json_parse(json_of(host, users as nat, hatch)) == Some((host, users as nat, hatch)),
{
    let s = json_of(host, users as nat, hatch);
    let a = json_open_host();
    let b = json_mid_users();
    let c = json_mid_hatch();
    let d = json_close();
    let u = dec_rep(users as nat);
    lemma_dec_rep_digits(users as nat);
    lemma_dec_round_trip(users as nat);

    assert(starts_with(s, a)) by {
        assert(s.take(a.len() as int) =~= a);
    };
    let r1 = s.skip(a.len() as int);
    assert(r1 =~= host + b + u + c + hatch + d);
    assert(first_index(r1, '"' as u8) == host.len()) by {
        assert(forall|j: int| 0 <= j < host.len() ==> r1[j] == host[j] && r1[j] != '"' as u8);
        assert(r1[host.len() as int] == b[0]);
        assert(b[0] == '"' as u8);
        lemma_first_index_determined(r1, '"' as u8, host.len() as int);
    };
    assert(r1.take(host.len() as int) =~= host);
    let r2 = r1.skip(host.len() as int);
    assert(r2 =~= b + u + c + hatch + d);
    assert(starts_with(r2, b)) by {
        assert(r2.take(b.len() as int) =~= b);
    };
    let r3 = r2.skip(b.len() as int);
    assert(r3 =~= u + c + hatch + d);
    assert(digit_run(r3) == u.len()) by {
        assert(forall|j: int| 0 <= j < u.len() ==> r3[j] == u[j] && is_digit(r3[j]));
        assert(r3[u.len() as int] == c[0]);
        assert(!is_digit(c[0]));
        lemma_digit_run_determined(r3, u.len() as int);
    };
    assert(r3.take(u.len() as int) =~= u);
    assert(dec_val(u) == users as nat);
    let r4 = r3.skip(u.len() as int);
    assert(r4 =~= c + hatch + d);
    assert(starts_with(r4, c)) by {
        assert(r4.take(c.len() as int) =~= c);
    };
    let r5 = r4.skip(c.len() as int);
    assert(r5 =~= hatch + d);
    assert(first_index(r5, '"' as u8) == hatch.len()) by {
        assert(forall|j: int|
            0 <= j < hatch.len() ==> r5[j] == hatch[j] && (is_digit(r5[j]) || r5[j] == '.'
                as u8));
        assert(r5[hatch.len() as int] == d[0]);
        assert(d[0] == '"' as u8);
        lemma_first_index_determined(r5, '"' as u8, hatch.len() as int);
    };
    assert(r5.take(hatch.len() as int) =~= hatch);
    assert(r5.skip(hatch.len() as int) =~= d);
    assert(json_parse(s) == Some((host, users as nat, hatch)));
}

/// Serialize the snapshot.
pub fn encode_config(c: &GooseConfiguration) -> (r: Vec<u8>)
    ensures
        r@ == json_of(c.host@, c.users as nat, c.hatch_rate@),
{
    let mut out = json_open_host_vec();
    out.extend_from_slice(c.host.as_slice());
    let mid_u = json_mid_users_vec();
    out.extend_from_slice(mid_u.as_slice());
    let digits = format_u64(c.users);
    out.extend_from_slice(digits.as_slice());
    let mid_h = json_mid_hatch_vec();
    out.extend_from_slice(mid_h.as_slice());
    out.extend_from_slice(c.hatch_rate.as_slice());
    let close = json_close_vec();
    out.extend_from_slice(close.as_slice());
    proof {
        assert(out@ =~= json_of(c.host@, c.users as nat, c.hatch_rate@));
    }
    out
}

/// `s` begins with the bytes `p` (executable form).
pub fn has_prefix(s: &[u8], p: &[u8]) -> (r: bool)
    ensures
        r == starts_with(s@, p@),
{
    if s.len() < p.len() {
        return false;
    }
    let mut i: usize = 0;
    while i < p.len()
        invariant
            p@.len() <= s@.len(),
            0 <= i <= p@.len(),
            forall|j: int| 0 <= j < i ==> s@[j] == p@[j],
        decreases p@.len() - i,
    {
        if s[i] != p[i] {
            assert(s@.take(p@.len() as int)[i as int] != p@[i as int]);
            return false;
        }
        i = i + 1;
    }
    assert(s@.take(p@.len() as int) =~= p@);
    true
}

/// The index of the first occurrence of `b`, or the length of `s`.
pub fn find_byte(s: &[u8], b: u8) -> (r: usize)
    ensures
        r as int == first_index(s@, b),
        r <= s@.len(),
{
    let mut i: usize = 0;
    while i < s.len()
        invariant
            0 <= i <= s@.len(),
            forall|j: int| 0 <= j < i ==> s@[j] != b,
        decreases s@.len() - i,
    {
        if s[i] == b {
            proof {
                lemma_first_index_determined(s@, b, i as int);
            }
            return i;
        }
        i = i + 1;
    }
    proof {
        lemma_first_index_determined(s@, b, s@.len() as int);
    }
    s.len()
}

/// The length of the all-digit prefix of `s`.
pub fn digit_run_len(s: &[u8]) -> (r: usize)
    ensures
        r as int == digit_run(s@),
        r <= s@.len(),
{
    let mut i: usize = 0;
    while i < s.len()
        invariant
            0 <= i <= s@.len(),
            forall|j: int| 0 <= j < i ==> is_digit(s@[j]),
        decreases s@.len() - i,
    {
        if !crate::text::digit_byte(s[i]) {
            proof {
                lemma_digit_run_determined(s@, i as int);
            }
            return i;
        }
        i = i + 1;
    }
    proof {
        lemma_digit_run_determined(s@, s@.len() as int);
    }
    s.len()
}

/// Every byte of `h` may stand unescaped in the snapshot.
pub fn host_ok(h: &[u8]) -> (r: bool)
    ensures
        r == wf_host(h@),
{
    let mut i: usize = 0;
    while i < h.len()
        invariant
            0 <= i <= h@.len(),
            forall|j: int| 0 <= j < i ==> host_byte_ok(#[trigger] h@[j]),
        decreases h@.len() - i,
    {
        let b = h[i];
        if !(' ' as u8 <= b && b < 0x7f && b != '"' as u8 && b != '\\' as u8) {
            return false;
        }
        i = i + 1;
    }
    true
}

/// Read a serialized snapshot back into a configuration. Succeeds exactly
/// when the bytes have the snapshot's shape and the recovered fields are
/// well formed.
pub fn decode_config(s: &[u8]) -> (r: Option<GooseConfiguration>)
    ensures
        match r {
            Some(c) => {
                &&& json_parse(s@) == Some((c.host@, c.users as nat, c.hatch_rate@))
                &&& c.wf()
            },
            None => match json_parse(s@) {
                Some(p) => !(wf_host(p.0) && is_decimal(p.2)),
                None => true,
            },
        },
{
    let open_v = json_open_host_vec();
    if !has_prefix(s, open_v.as_slice()) {
        return None;
    }
    let r1 = slice_subrange(s, open_v.len(), s.len());
    proof {
        assert(r1@ =~= s@.skip(json_open_host().len() as int));
    }
    let hl = find_byte(r1, '"' as u8);
    if hl == r1.len() {
        return None;
    }
    let host = slice_subrange(r1, 0, hl);
    let r2 = slice_subrange(r1, hl, r1.len());
    proof {
        assert(host@ =~= r1@.take(hl as int));
        assert(r2@ =~= r1@.skip(hl as int));
    }
    let mid_u = json_mid_users_vec();
    if !has_prefix(r2, mid_u.as_slice()) {
        return None;
    }
    let r3 = slice_subrange(r2, mid_u.len(), r2.len());
    proof {
        assert(r3@ =~= r2@.skip(json_mid_users().len() as int));
    }
    let ul = digit_run_len(r3);
    if ul == 0 {
        return None;
    }
    let digits = slice_subrange(r3, 0, ul);
    proof {
        assert(digits@ =~= r3@.take(ul as int));
        lemma_digit_run_spec(r3@);
    }
    let users = match parse_u64(digits) {
        Some(v) => v,
        None => {
            return None;
        },
    };
    let r4 = slice_subrange(r3, ul, r3.len());
    proof {
        assert(r4@ =~= r3@.skip(ul as int));
    }
    let mid_h = json_mid_hatch_vec();
    if !has_prefix(r4, mid_h.as_slice()) {
        return None;
    }
    let r5 = slice_subrange(r4, mid_h.len(), r4.len());
    proof {
        assert(r5@ =~= r4@.skip(json_mid_hatch().len() as int));
    }
    let rl = find_byte(r5, '"' as u8);
    if rl == r5.len() {
        return None;
    }
    let hatch = slice_subrange(r5, 0, rl);
    let tail = slice_subrange(r5, rl, r5.len());
    proof {
        assert(hatch@ =~= r5@.take(rl as int));
        assert(tail@ =~= r5@.skip(rl as int));
    }
    let close = json_close_vec();
    let close_match = has_prefix(tail, close.as_slice()) && tail.len() == close.len();
    if !close_match {
        proof {
            if tail@ == json_close() {
                assert(tail@.take(json_close().len() as int) =~= json_close());
            }
        }
        return None;
    }
    proof {
        assert(tail@ =~= json_close());
    }
    if !host_ok(host) {
        return None;
    }
    if !decimal_valid(hatch) {
        return None;
    }
    Some(
        GooseConfiguration {
            host: slice_to_vec(host),
            users,
            hatch_rate: slice_to_vec(hatch),
        },
    )
}

} // verus!
