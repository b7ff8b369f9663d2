//! Recursion levels: the depth counter that each provisioned instance hands
//! to the instance it provisions in turn.
//!
//! The depth arrives as an optional configuration string. An absent,
//! non-numeric, or out-of-range input reads as depth 0, never as an error;
//! the instance being provisioned always gets depth one greater.

use vstd::prelude::*;
use crate::digits::{all_digits, dec_rep, dec_val, digit_of, is_digit, lemma_dec_rep_value};

verus! {

/// The largest representable recursion depth.
pub const MAX_LEVEL: u32 = 0x7fff_ffff;

/// Whether a configuration string reads as a recursion depth: a non-empty
/// all-digit string whose value is representable.
pub open spec fn valid_level_input(s: Seq<char>) -> bool {
    s.len() > 0 && all_digits(s) && dec_val(s) <= MAX_LEVEL
}

/// The recursion depth read from an optional configuration string:
/// its numeric value when it reads as a depth, 0 otherwise.
pub open spec fn spec_parse_level(input: Option<Seq<char>>) -> nat {
    match input {
        Some(s) => if valid_level_input(s) {
            dec_val(s)
        } else {
            0
        },
        None => 0,
    }
}

/// The depth given to the instance being provisioned: one more than the
/// depth read from configuration.
pub open spec fn spec_next_level(input: Option<Seq<char>>) -> nat {
    spec_parse_level(input) + 1
}

/// A digit sequence is worth no more than any extension of it by further
/// characters on the right.
proof fn lemma_dec_val_extend(t: Seq<char>, j: int)
    requires
        0 <= j <= t.len(),
    ensures
        dec_val(t.take(j)) <= dec_val(t),
    decreases t.len() - j,
{
    if j == t.len() {
        assert(t.take(j) =~= t);
    } else {
        lemma_dec_val_extend(t, j + 1);
        assert(t.take(j + 1).drop_last() =~= t.take(j));
        assert(dec_val(t.take(j + 1)) == 10 * dec_val(t.take(j)) + digit_of(t.take(j + 1).last()));
    }
}

/// Reads a recursion depth from one configuration string.
fn parse_level_str(s: &str) -> (r: u32)
    ensures
        r as nat == spec_parse_level(Some(s@)),
{
    let len = s.unicode_len();
    if len == 0 {
        return 0;
    }
    let mut acc: u64 = 0;
    let mut i: usize = 0;
    while i < len
        invariant
            0 < len == s@.len(),
            i <= len,
            all_digits(s@.take(i as int)),
            acc as nat == dec_val(s@.take(i as int)),
            acc <= MAX_LEVEL as u64,
        decreases len - i,
    {
        let c = s.get_char(i);
        let v = c as u32;
        if v < 48 || v > 57 {
            proof {
                assert(!is_digit(s@[i as int]));
            }
            return 0;
        }
        let d: u64 = (v - 48) as u64;
        acc = acc * 10 + d;
        proof {
            assert(s@.take(i as int + 1).drop_last() =~= s@.take(i as int));
            assert(s@.take(i as int + 1).last() == s@[i as int]);
        }
        if acc > MAX_LEVEL as u64 {
            proof {
                lemma_dec_val_extend(s@, i as int + 1);
            }
            return 0;
        }
        i += 1;
    }
    proof {
        assert(s@.take(len as int) =~= s@);
    }
    acc as u32
}

/// Reads the current recursion depth from an optional configuration string;
/// absent, non-numeric, and out-of-range inputs read as 0.
pub fn parse_level(input: Option<&str>) -> (r: u32)
    ensures
        r as nat == spec_parse_level(input.deep_view()),
        r <= MAX_LEVEL,
{
    match input {
        None => 0,
        Some(s) => parse_level_str(s),
    }
}

/// Derives the depth for the instance being provisioned: one more than the
/// depth the configuration holds.
pub fn next_level(input: Option<&str>) -> (r: u32)
    ensures
        r as nat == spec_next_level(input.deep_view()),
        1 <= r,
{
    let l = parse_level(input);
    l + 1
}

/// Law: for every depth input that reads as a representable number `d`,
/// the derived next level is exactly `d + 1`.
pub proof fn lemma_next_level_increments(s: Seq<char>, d: nat)
    requires
        s.len() > 0,
        all_digits(s),
        dec_val(s) == d,
        d <= MAX_LEVEL,
    ensures
        spec_next_level(Some(s)) == d + 1,
{
}

/// Law: a depth written for the child instance reads back as the same
/// depth — the decimal rendering of any representable level is a valid
/// level input with that very value.
pub proof fn lemma_level_round_trip(n: nat)
    requires
        n <= MAX_LEVEL,
    ensures
        spec_parse_level(Some(dec_rep(n))) == n,
{
    lemma_dec_rep_value(n);
}

/// Law: an absent or unreadable depth input derives next level 1.
pub proof fn lemma_next_level_default(input: Option<Seq<char>>)
    requires
        input matches Some(s) ==> !valid_level_input(s),
    ensures
        spec_next_level(input) == 1,
{
}

} // verus!
