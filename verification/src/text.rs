//! ASCII byte helpers shared by the command grammar and reply formatting:
//! case folding, digit tests, and the fixed protocol texts as byte sequences.

use vstd::prelude::*;

verus! {

/// Fold an ASCII upper-case letter to lower case; any other byte stands
/// as it is. The grammar's keywords are ASCII, so this is all the case
/// folding classification needs.
pub open spec fn lower(b: u8) -> u8 {
    if 'A' as u8 <= b && b <= 'Z' as u8 {
        (b + 0x20) as u8
    } else {
        b
    }
}

pub open spec fn is_digit(b: u8) -> bool {
    '0' as u8 <= b && b <= '9' as u8
}

/// Case-insensitive equality of two byte sequences (ASCII folding).
pub open spec fn eq_ignore_case(a: Seq<u8>, b: Seq<u8>) -> bool {
    a.len() == b.len() && forall|i: int| 0 <= i < a.len() ==> lower(a[i]) == lower(b[i])
}

pub fn lower_byte(b: u8) -> (r: u8)
    ensures
        r == lower(b),
{
    if 'A' as u8 <= b && b <= 'Z' as u8 {
        b + 0x20
    } else {
        b
    }
}

pub fn digit_byte(b: u8) -> (r: bool)
    ensures
        r == is_digit(b),
{
    '0' as u8 <= b && b <= '9' as u8
}

/// The bytes of "exit".
pub open spec fn exit_word() -> Seq<u8> {
    seq!['e' as u8, 'x' as u8, 'i' as u8, 't' as u8]
}

/// The bytes of "quit".
pub open spec fn quit_word() -> Seq<u8> {
    seq!['q' as u8, 'u' as u8, 'i' as u8, 't' as u8]
}

/// The bytes of "echo".
pub open spec fn echo_word() -> Seq<u8> {
    seq!['e' as u8, 'c' as u8, 'h' as u8, 'o' as u8]
}

/// The bytes of "stop".
pub open spec fn stop_word() -> Seq<u8> {
    seq!['s' as u8, 't' as u8, 'o' as u8, 'p' as u8]
}

/// The bytes of "config".
pub open spec fn config_word() -> Seq<u8> {
    seq!['c' as u8, 'o' as u8, 'n' as u8, 'f' as u8, 'i' as u8, 'g' as u8]
}

/// The bytes of "users " (keyword plus the separating space).
pub open spec fn users_prefix() -> Seq<u8> {
    seq!['u' as u8, 's' as u8, 'e' as u8, 'r' as u8, 's' as u8, ' ' as u8]
}

/// The bytes of "hatchrate " (keyword plus the separating space).
pub open spec fn hatchrate_prefix() -> Seq<u8> {
    seq![
        'h' as u8,
        'a' as u8,
        't' as u8,
        'c' as u8,
        'h' as u8,
        'r' as u8,
        'a' as u8,
        't' as u8,
        'e' as u8,
        ' ' as u8,
    ]
}

pub fn exit_word_vec() -> (r: Vec<u8>)
    ensures
        r@ == exit_word(),
{
    let mut v: Vec<u8> = Vec::new();
    v.push('e' as u8);
    v.push('x' as u8);
    v.push('i' as u8);
    v.push('t' as u8);
    proof {
        assert(v@ =~= exit_word());
    }
    v
}

pub fn quit_word_vec() -> (r: Vec<u8>)
    ensures
        r@ == quit_word(),
{
    let mut v: Vec<u8> = Vec::new();
    v.push('q' as u8);
    v.push('u' as u8);
    v.push('i' as u8);
    v.push('t' as u8);
    proof {
        assert(v@ =~= quit_word());
    }
    v
}

pub fn echo_word_vec() -> (r: Vec<u8>)
    ensures
        r@ == echo_word(),
{
    let mut v: Vec<u8> = Vec::new();
    v.push('e' as u8);
    v.push('c' as u8);
    v.push('h' as u8);
    v.push('o' as u8);
    proof {
        assert(v@ =~= echo_word());
    }
    v
}

pub fn stop_word_vec() -> (r: Vec<u8>)
    ensures
        r@ == stop_word(),
{
    let mut v: Vec<u8> = Vec::new();
    v.push('s' as u8);
    v.push('t' as u8);
    v.push('o' as u8);
    v.push('p' as u8);
    proof {
        assert(v@ =~= stop_word());
    }
    v
}

pub fn config_word_vec() -> (r: Vec<u8>)
    ensures
        r@ == config_word(),
{
    let mut v: Vec<u8> = Vec::new();
    v.push('c' as u8);
    v.push('o' as u8);
    v.push('n' as u8);
    v.push('f' as u8);
    v.push('i' as u8);
    v.push('g' as u8);
    proof {
        assert(v@ =~= config_word());
    }
    v
}

pub fn users_prefix_vec() -> (r: Vec<u8>)
    ensures
        r@ == users_prefix(),
{
    let mut v: Vec<u8> = Vec::new();
    v.push('u' as u8);
    v.push('s' as u8);
    v.push('e' as u8);
    v.push('r' as u8);
    v.push('s' as u8);
    v.push(' ' as u8);
    proof {
        assert(v@ =~= users_prefix());
    }
    v
}

pub fn hatchrate_prefix_vec() -> (r: Vec<u8>)
    ensures
        r@ == hatchrate_prefix(),
{
    let mut v: Vec<u8> = Vec::new();
    v.push('h' as u8);
    v.push('a' as u8);
    v.push('t' as u8);
    v.push('c' as u8);
    v.push('h' as u8);
    v.push('r' as u8);
    v.push('a' as u8);
    v.push('t' as u8);
    v.push('e' as u8);
    v.push(' ' as u8);
    proof {
        assert(v@ =~= hatchrate_prefix());
    }
    v
}

/// Relies on core::str::from_utf8: it succeeds exactly on valid UTF-8,
/// which vstd states as `valid_utf8`.
#[verifier::external_body]
pub(crate) fn utf8_valid(b: &[u8]) -> (r: bool)
    ensures
        r == vstd::utf8::valid_utf8(b@),
{
    core::str::from_utf8(b).is_ok()
}

/// Case-insensitive comparison of a byte slice against an expected word.
pub fn bytes_eq_ignore_case(a: &[u8], b: &[u8]) -> (r: bool)
    ensures
        r == eq_ignore_case(a@, b@),
{
    if a.len() != b.len() {
        return false;
    }
    let mut i: usize = 0;
    while i < a.len()
        invariant
            a@.len() == b@.len(),
            0 <= i <= a@.len(),
            forall|j: int| 0 <= j < i ==> lower(a@[j]) == lower(b@[j]),
        decreases a@.len() - i,
    {
        if lower_byte(a[i]) != lower_byte(b[i]) {
            return false;
        }
        i = i + 1;
    }
    true
}
/// The bytes of the fixed prompt "goose> ".
pub open spec fn prompt_text() -> Seq<u8> {
    seq!['g' as u8, 'o' as u8, 'o' as u8, 's' as u8, 'e' as u8, '>' as u8, ' ' as u8]
}

pub fn prompt_text_vec() -> (r: Vec<u8>)
    ensures
        r@ == prompt_text(),
{
    let mut v: Vec<u8> = Vec::new();
    v.push('g' as u8);
    v.push('o' as u8);
    v.push('o' as u8);
    v.push('s' as u8);
    v.push('e' as u8);
    v.push('>' as u8);
    v.push(' ' as u8);
    proof {
        assert(v@ =~= prompt_text());
    }
    v
}

/// A line feed followed by the fixed prompt; every reply ends with this.
pub open spec fn newline_prompt() -> Seq<u8> {
    seq!['\n' as u8, 'g' as u8, 'o' as u8, 'o' as u8, 's' as u8, 'e' as u8, '>' as u8, ' ' as u8]
}

pub fn newline_prompt_vec() -> (r: Vec<u8>)
    ensures
        r@ == newline_prompt(),
{
    let mut v: Vec<u8> = Vec::new();
    v.push('\n' as u8);
    v.push('g' as u8);
    v.push('o' as u8);
    v.push('o' as u8);
    v.push('s' as u8);
    v.push('e' as u8);
    v.push('>' as u8);
    v.push(' ' as u8);
    proof {
        assert(v@ =~= newline_prompt());
    }
    v
}

/// The farewell reply text.
pub open spec fn goodbye_text() -> Seq<u8> {
    seq!['g' as u8, 'o' as u8, 'o' as u8, 'd' as u8, 'b' as u8, 'y' as u8, 'e' as u8, '!' as u8]
}

pub fn goodbye_text_vec() -> (r: Vec<u8>)
    ensures
        r@ == goodbye_text(),
{
    let mut v: Vec<u8> = Vec::new();
    v.push('g' as u8);
    v.push('o' as u8);
    v.push('o' as u8);
    v.push('d' as u8);
    v.push('b' as u8);
    v.push('y' as u8);
    v.push('e' as u8);
    v.push('!' as u8);
    proof {
        assert(v@ =~= goodbye_text());
    }
    v
}

/// The reply text acknowledging a stop command.
pub open spec fn stopping_text() -> Seq<u8> {
    seq!['s' as u8, 't' as u8, 'o' as u8, 'p' as u8, 'p' as u8, 'i' as u8, 'n' as u8, 'g' as u8, ' ' as u8, 'l' as u8, 'o' as u8, 'a' as u8, 'd' as u8, ' ' as u8, 't' as u8, 'e' as u8, 's' as u8, 't' as u8, '.' as u8, '.' as u8, '.' as u8]
}

pub fn stopping_text_vec() -> (r: Vec<u8>)
    ensures
        r@ == stopping_text(),
{
    let mut v: Vec<u8> = Vec::new();
    v.push('s' as u8);
    v.push('t' as u8);
    v.push('o' as u8);
    v.push('p' as u8);
    v.push('p' as u8);
    v.push('i' as u8);
    v.push('n' as u8);
    v.push('g' as u8);
    v.push(' ' as u8);
    v.push('l' as u8);
    v.push('o' as u8);
    v.push('a' as u8);
    v.push('d' as u8);
    v.push(' ' as u8);
    v.push('t' as u8);
    v.push('e' as u8);
    v.push('s' as u8);
    v.push('t' as u8);
    v.push('.' as u8);
    v.push('.' as u8);
    v.push('.' as u8);
    proof {
        assert(v@ =~= stopping_text());
    }
    v
}

/// The reply text for a line that matches no pattern.
pub open spec fn unrecognized_text() -> Seq<u8> {
    seq!['u' as u8, 'n' as u8, 'r' as u8, 'e' as u8, 'c' as u8, 'o' as u8, 'g' as u8, 'n' as u8, 'i' as u8, 'z' as u8, 'e' as u8, 'd' as u8, ' ' as u8, 'c' as u8, 'o' as u8, 'm' as u8, 'm' as u8, 'a' as u8, 'n' as u8, 'd' as u8]
}

pub fn unrecognized_text_vec() -> (r: Vec<u8>)
    ensures
        r@ == unrecognized_text(),
{
    let mut v: Vec<u8> = Vec::new();
    v.push('u' as u8);
    v.push('n' as u8);
    v.push('r' as u8);
    v.push('e' as u8);
    v.push('c' as u8);
    v.push('o' as u8);
    v.push('g' as u8);
    v.push('n' as u8);
    v.push('i' as u8);
    v.push('z' as u8);
    v.push('e' as u8);
    v.push('d' as u8);
    v.push(' ' as u8);
    v.push('c' as u8);
    v.push('o' as u8);
    v.push('m' as u8);
    v.push('m' as u8);
    v.push('a' as u8);
    v.push('n' as u8);
    v.push('d' as u8);
    proof {
        assert(v@ =~= unrecognized_text());
    }
    v
}

/// The reply text for a matched keyword with a bad numeric capture.
pub open spec fn invalid_value_text() -> Seq<u8> {
    seq!['i' as u8, 'n' as u8, 'v' as u8, 'a' as u8, 'l' as u8, 'i' as u8, 'd' as u8, ' ' as u8, 'v' as u8, 'a' as u8, 'l' as u8, 'u' as u8, 'e' as u8]
}

pub fn invalid_value_text_vec() -> (r: Vec<u8>)
    ensures
        r@ == invalid_value_text(),
{
    let mut v: Vec<u8> = Vec::new();
    v.push('i' as u8);
    v.push('n' as u8);
    v.push('v' as u8);
    v.push('a' as u8);
    v.push('l' as u8);
    v.push('i' as u8);
    v.push('d' as u8);
    v.push(' ' as u8);
    v.push('v' as u8);
    v.push('a' as u8);
    v.push('l' as u8);
    v.push('u' as u8);
    v.push('e' as u8);
    proof {
        assert(v@ =~= invalid_value_text());
    }
    v
}

/// The reply text when the shared channel is full.
pub open spec fn busy_text() -> Seq<u8> {
    seq!['b' as u8, 'u' as u8, 's' as u8, 'y' as u8, ',' as u8, ' ' as u8, 'c' as u8, 'o' as u8, 'm' as u8, 'm' as u8, 'a' as u8, 'n' as u8, 'd' as u8, ' ' as u8, 'n' as u8, 'o' as u8, 't' as u8, ' ' as u8, 'a' as u8, 'p' as u8, 'p' as u8, 'l' as u8, 'i' as u8, 'e' as u8, 'd' as u8]
}

pub fn busy_text_vec() -> (r: Vec<u8>)
    ensures
        r@ == busy_text(),
{
    let mut v: Vec<u8> = Vec::new();
    v.push('b' as u8);
    v.push('u' as u8);
    v.push('s' as u8);
    v.push('y' as u8);
    v.push(',' as u8);
    v.push(' ' as u8);
    v.push('c' as u8);
    v.push('o' as u8);
    v.push('m' as u8);
    v.push('m' as u8);
    v.push('a' as u8);
    v.push('n' as u8);
    v.push('d' as u8);
    v.push(' ' as u8);
    v.push('n' as u8);
    v.push('o' as u8);
    v.push('t' as u8);
    v.push(' ' as u8);
    v.push('a' as u8);
    v.push('p' as u8);
    v.push('p' as u8);
    v.push('l' as u8);
    v.push('i' as u8);
    v.push('e' as u8);
    v.push('d' as u8);
    proof {
        assert(v@ =~= busy_text());
    }
    v
}

/// The reply text when a query gets no reply in time.
pub open spec fn unavailable_text() -> Seq<u8> {
    seq!['c' as u8, 'o' as u8, 'o' as u8, 'r' as u8, 'd' as u8, 'i' as u8, 'n' as u8, 'a' as u8, 't' as u8, 'o' as u8, 'r' as u8, ' ' as u8, 'u' as u8, 'n' as u8, 'a' as u8, 'v' as u8, 'a' as u8, 'i' as u8, 'l' as u8, 'a' as u8, 'b' as u8, 'l' as u8, 'e' as u8]
}

pub fn unavailable_text_vec() -> (r: Vec<u8>)
    ensures
        r@ == unavailable_text(),
{
    let mut v: Vec<u8> = Vec::new();
    v.push('c' as u8);
    v.push('o' as u8);
    v.push('o' as u8);
    v.push('r' as u8);
    v.push('d' as u8);
    v.push('i' as u8);
    v.push('n' as u8);
    v.push('a' as u8);
    v.push('t' as u8);
    v.push('o' as u8);
    v.push('r' as u8);
    v.push(' ' as u8);
    v.push('u' as u8);
    v.push('n' as u8);
    v.push('a' as u8);
    v.push('v' as u8);
    v.push('a' as u8);
    v.push('i' as u8);
    v.push('l' as u8);
    v.push('a' as u8);
    v.push('b' as u8);
    v.push('l' as u8);
    v.push('e' as u8);
    proof {
        assert(v@ =~= unavailable_text());
    }
    v
}

/// The prefix of the reply confirming a new user count.
pub open spec fn reconf_users_text() -> Seq<u8> {
    seq!['r' as u8, 'e' as u8, 'c' as u8, 'o' as u8, 'n' as u8, 'f' as u8, 'i' as u8, 'g' as u8, 'u' as u8, 'r' as u8, 'e' as u8, 'd' as u8, ' ' as u8, 'u' as u8, 's' as u8, 'e' as u8, 'r' as u8, 's' as u8, ':' as u8, ' ' as u8]
}

pub fn reconf_users_text_vec() -> (r: Vec<u8>)
    ensures
        r@ == reconf_users_text(),
{
    let mut v: Vec<u8> = Vec::new();
    v.push('r' as u8);
    v.push('e' as u8);
    v.push('c' as u8);
    v.push('o' as u8);
    v.push('n' as u8);
    v.push('f' as u8);
    v.push('i' as u8);
    v.push('g' as u8);
    v.push('u' as u8);
    v.push('r' as u8);
    v.push('e' as u8);
    v.push('d' as u8);
    v.push(' ' as u8);
    v.push('u' as u8);
    v.push('s' as u8);
    v.push('e' as u8);
    v.push('r' as u8);
    v.push('s' as u8);
    v.push(':' as u8);
    v.push(' ' as u8);
    proof {
        assert(v@ =~= reconf_users_text());
    }
    v
}

/// The prefix of the reply confirming a new hatch rate.
pub open spec fn reconf_hatch_text() -> Seq<u8> {
    seq!['r' as u8, 'e' as u8, 'c' as u8, 'o' as u8, 'n' as u8, 'f' as u8, 'i' as u8, 'g' as u8, 'u' as u8, 'r' as u8, 'e' as u8, 'd' as u8, ' ' as u8, 'h' as u8, 'a' as u8, 't' as u8, 'c' as u8, 'h' as u8, '_' as u8, 'r' as u8, 'a' as u8, 't' as u8, 'e' as u8, ':' as u8, ' ' as u8]
}

pub fn reconf_hatch_text_vec() -> (r: Vec<u8>)
    ensures
        r@ == reconf_hatch_text(),
{
    let mut v: Vec<u8> = Vec::new();
    v.push('r' as u8);
    v.push('e' as u8);
    v.push('c' as u8);
    v.push('o' as u8);
    v.push('n' as u8);
    v.push('f' as u8);
    v.push('i' as u8);
    v.push('g' as u8);
    v.push('u' as u8);
    v.push('r' as u8);
    v.push('e' as u8);
    v.push('d' as u8);
    v.push(' ' as u8);
    v.push('h' as u8);
    v.push('a' as u8);
    v.push('t' as u8);
    v.push('c' as u8);
    v.push('h' as u8);
    v.push('_' as u8);
    v.push('r' as u8);
    v.push('a' as u8);
    v.push('t' as u8);
    v.push('e' as u8);
    v.push(':' as u8);
    v.push(' ' as u8);
    proof {
        assert(v@ =~= reconf_hatch_text());
    }
    v
}

/// The opening of the configuration snapshot: brace and host key.
pub open spec fn json_open_host() -> Seq<u8> {
    seq!['{' as u8, '"' as u8, 'h' as u8, 'o' as u8, 's' as u8, 't' as u8, '"' as u8, ':' as u8, '"' as u8]
}

pub fn json_open_host_vec() -> (r: Vec<u8>)
    ensures
        r@ == json_open_host(),
{
    let mut v: Vec<u8> = Vec::new();
    v.push('{' as u8);
    v.push('"' as u8);
    v.push('h' as u8);
    v.push('o' as u8);
    v.push('s' as u8);
    v.push('t' as u8);
    v.push('"' as u8);
    v.push(':' as u8);
    v.push('"' as u8);
    proof {
        assert(v@ =~= json_open_host());
    }
    v
}

/// The fragment between the host value and the user count.
pub open spec fn json_mid_users() -> Seq<u8> {
    seq!['"' as u8, ',' as u8, '"' as u8, 'u' as u8, 's' as u8, 'e' as u8, 'r' as u8, 's' as u8, '"' as u8, ':' as u8]
}

pub fn json_mid_users_vec() -> (r: Vec<u8>)
    ensures
        r@ == json_mid_users(),
{
    let mut v: Vec<u8> = Vec::new();
    v.push('"' as u8);
    v.push(',' as u8);
    v.push('"' as u8);
    v.push('u' as u8);
    v.push('s' as u8);
    v.push('e' as u8);
    v.push('r' as u8);
    v.push('s' as u8);
    v.push('"' as u8);
    v.push(':' as u8);
    proof {
        assert(v@ =~= json_mid_users());
    }
    v
}

/// The fragment between the user count and the hatch rate.
pub open spec fn json_mid_hatch() -> Seq<u8> {
    seq![',' as u8, '"' as u8, 'h' as u8, 'a' as u8, 't' as u8, 'c' as u8, 'h' as u8, '_' as u8, 'r' as u8, 'a' as u8, 't' as u8, 'e' as u8, '"' as u8, ':' as u8, '"' as u8]
}

pub fn json_mid_hatch_vec() -> (r: Vec<u8>)
    ensures
        r@ == json_mid_hatch(),
{
    let mut v: Vec<u8> = Vec::new();
    v.push(',' as u8);
    v.push('"' as u8);
    v.push('h' as u8);
    v.push('a' as u8);
    v.push('t' as u8);
    v.push('c' as u8);
    v.push('h' as u8);
    v.push('_' as u8);
    v.push('r' as u8);
    v.push('a' as u8);
    v.push('t' as u8);
    v.push('e' as u8);
    v.push('"' as u8);
    v.push(':' as u8);
    v.push('"' as u8);
    proof {
        assert(v@ =~= json_mid_hatch());
    }
    v
}

/// The closing quote and brace of the configuration snapshot.
pub open spec fn json_close() -> Seq<u8> {
    seq!['"' as u8, '}' as u8]
}

pub fn json_close_vec() -> (r: Vec<u8>)
    ensures
        r@ == json_close(),
{
    let mut v: Vec<u8> = Vec::new();
    v.push('"' as u8);
    v.push('}' as u8);
    proof {
        assert(v@ =~= json_close());
    }
    v
}


} // verus!
