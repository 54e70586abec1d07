//! The command grammar: an ordered, case-insensitive pattern list that maps
//! one line of operator input to exactly one command class. Evaluation is top
//! to bottom and the first match wins; every line is classified.

use vstd::prelude::*;

use crate::text::{
    bytes_eq_ignore_case, config_word, config_word_vec, digit_byte, echo_word, echo_word_vec,
    eq_ignore_case, exit_word, exit_word_vec, hatchrate_prefix, hatchrate_prefix_vec, is_digit,
    quit_word, quit_word_vec, stop_word, stop_word_vec, users_prefix, users_prefix_vec,
};
use vstd::slice::{slice_subrange, slice_to_vec};

verus! {

/// The class of one input line, at the specification level. A captured
/// value (user count or hatch rate) is carried as the exact bytes that
/// followed the keyword.
pub enum LineClass {
    Quit,
    Echo,
    Stop,
    Users(Seq<u8>),
    InvalidUsers,
    HatchRate(Seq<u8>),
    InvalidHatchRate,
    Config,
    Unrecognized,
}

/// The class of one input line, as executable data.
#[derive(Debug, Clone, PartialEq, Eq)]
pub enum Classification {
    Quit,
    Echo,
    Stop,
    Users(Vec<u8>),
    InvalidUsers,
    HatchRate(Vec<u8>),
    InvalidHatchRate,
    Config,
    Unrecognized,
}

impl View for Classification {
    type V = LineClass;

    open spec fn view(&self) -> LineClass {
        match self {
            Classification::Quit => LineClass::Quit,
            Classification::Echo => LineClass::Echo,
            Classification::Stop => LineClass::Stop,
            Classification::Users(v) => LineClass::Users(v@),
            Classification::InvalidUsers => LineClass::InvalidUsers,
            Classification::HatchRate(v) => LineClass::HatchRate(v@),
            Classification::InvalidHatchRate => LineClass::InvalidHatchRate,
            Classification::Config => LineClass::Config,
            Classification::Unrecognized => LineClass::Unrecognized,
        }
    }
}

/// A valid user count capture: one or more decimal digits.
pub open spec fn is_count(a: Seq<u8>) -> bool {
    a.len() > 0 && forall|i: int| 0 <= i < a.len() ==> is_digit(a[i])
}

/// A valid hatch rate capture: digits with at most one decimal point and at
/// least one digit.
pub open spec fn is_decimal(a: Seq<u8>) -> bool {
    &&& a.len() > 0
    &&& forall|i: int| 0 <= i < a.len() ==> is_digit(a[i]) || a[i] == '.' as u8
    &&& exists|i: int| 0 <= i < a.len() && is_digit(a[i])
    &&& forall|i: int, j: int|
        0 <= i < j < a.len() ==> !(a[i] == '.' as u8 && a[j] == '.' as u8)
}

/// The line begins with the "users " keyword (case-insensitively).
pub open spec fn has_users_prefix(s: Seq<u8>) -> bool {
    s.len() >= users_prefix().len() && eq_ignore_case(s.take(users_prefix().len() as int), users_prefix())
}

/// The capture that follows the "users " keyword.
pub open spec fn users_arg(s: Seq<u8>) -> Seq<u8> {
    s.skip(users_prefix().len() as int)
}

/// The line begins with the "hatchrate " keyword (case-insensitively).
pub open spec fn has_hatchrate_prefix(s: Seq<u8>) -> bool {
    s.len() >= hatchrate_prefix().len() && eq_ignore_case(
        s.take(hatchrate_prefix().len() as int),
        hatchrate_prefix(),
    )
}

/// The capture that follows the "hatchrate " keyword.
pub open spec fn hatchrate_arg(s: Seq<u8>) -> Seq<u8> {
    s.skip(hatchrate_prefix().len() as int)
}

/// The ordered grammar itself: the class of a line, first match first.
/// Classification is total and deterministic.
pub open spec fn classify_spec(s: Seq<u8>) -> LineClass {
    if eq_ignore_case(s, exit_word()) || eq_ignore_case(s, quit_word()) {
        LineClass::Quit
    } else if eq_ignore_case(s, echo_word()) {
        LineClass::Echo
    } else if eq_ignore_case(s, stop_word()) {
        LineClass::Stop
    } else if has_users_prefix(s) {
        if is_count(users_arg(s)) {
            LineClass::Users(users_arg(s))
        } else {
            LineClass::InvalidUsers
        }
    } else if has_hatchrate_prefix(s) {
        if is_decimal(hatchrate_arg(s)) {
            LineClass::HatchRate(hatchrate_arg(s))
        } else {
            LineClass::InvalidHatchRate
        }
    } else if eq_ignore_case(s, config_word()) {
        LineClass::Config
    } else {
        LineClass::Unrecognized
    }
}

/// Whether every byte of the capture is a digit and there is at least one.
pub fn count_valid(a: &[u8]) -> (r: bool)
    ensures
        r == is_count(a@),
{
    if a.len() == 0 {
        return false;
    }
    let mut i: usize = 0;
    while i < a.len()
        invariant
            0 <= i <= a@.len(),
            forall|j: int| 0 <= j < i ==> is_digit(a@[j]),
        decreases a@.len() - i,
    {
        if !digit_byte(a[i]) {
            return false;
        }
        i = i + 1;
    }
    true
}

/// Whether the capture is a well-formed decimal: digits, at most one point,
/// at least one digit.
pub fn decimal_valid(a: &[u8]) -> (r: bool)
    ensures
        r == is_decimal(a@),
{
    if a.len() == 0 {
        return false;
    }
    let mut i: usize = 0;
    let mut seen_digit = false;
    let mut seen_dot = false;
    while i < a.len()
        invariant
            0 <= i <= a@.len(),
            forall|j: int| 0 <= j < i ==> is_digit(a@[j]) || a@[j] == '.' as u8,
            seen_digit == exists|j: int| 0 <= j < i && is_digit(a@[j]),
            seen_dot == exists|j: int| 0 <= j < i && a@[j] == '.' as u8,
            forall|j: int, k: int|
                0 <= j < k < i ==> !(a@[j] == '.' as u8 && a@[k] == '.' as u8),
        decreases a@.len() - i,
    {
        let b = a[i];
        if digit_byte(b) {
            seen_digit = true;
        } else if b == '.' as u8 {
            if seen_dot {
                return false;
            }
            seen_dot = true;
        } else {
            return false;
        }
        i = i + 1;
    }
    seen_digit
}

/// Classify one line of input. The result follows the ordered grammar
/// exactly; a matched keyword with a bad capture is reported as invalid
/// rather than unrecognized.
pub fn classify(line: &[u8]) -> (r: Classification)
    ensures
        r@ == classify_spec(line@),
{
    let exit_w = exit_word_vec();
    let quit_w = quit_word_vec();
    if bytes_eq_ignore_case(line, exit_w.as_slice()) || bytes_eq_ignore_case(
        line,
        quit_w.as_slice(),
    ) {
        return Classification::Quit;
    }
    let echo_w = echo_word_vec();
    if bytes_eq_ignore_case(line, echo_w.as_slice()) {
        return Classification::Echo;
    }
    let stop_w = stop_word_vec();
    if bytes_eq_ignore_case(line, stop_w.as_slice()) {
        return Classification::Stop;
    }
    let users_p = users_prefix_vec();
    if line.len() >= users_p.len() {
        let head = slice_subrange(line, 0, users_p.len());
        if bytes_eq_ignore_case(head, users_p.as_slice()) {
            let arg = slice_subrange(line, users_p.len(), line.len());
            proof {
                assert(arg@ =~= users_arg(line@));
            }
            if count_valid(arg) {
                return Classification::Users(slice_to_vec(arg));
            } else {
                return Classification::InvalidUsers;
            }
        }
    }
    let hatch_p = hatchrate_prefix_vec();
    if line.len() >= hatch_p.len() {
        let head = slice_subrange(line, 0, hatch_p.len());
        if bytes_eq_ignore_case(head, hatch_p.as_slice()) {
            let arg = slice_subrange(line, hatch_p.len(), line.len());
            proof {
                assert(arg@ =~= hatchrate_arg(line@));
            }
            if decimal_valid(arg) {
                return Classification::HatchRate(slice_to_vec(arg));
            } else {
                return Classification::InvalidHatchRate;
            }
        }
    }
    let config_w = config_word_vec();
    if bytes_eq_ignore_case(line, config_w.as_slice()) {
        return Classification::Config;
    }
    Classification::Unrecognized
}

} // verus!
