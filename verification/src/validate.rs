//! Request validation: parsing of the optional textual pagination parameters
//! and normalisation of the page limit.

use vstd::prelude::*;
use vstd::arithmetic::div_mod::{lemma_fundamental_div_mod, lemma_mod_division_less_than_divisor};
use vstd::string::StrSliceExecFns;

verus! {

/// Largest page limit a request may obtain.
pub const LIMIT_CAP: u32 = 4096;

/// Page limit used when none is requested.
pub const LIMIT_DEFAULT: u32 = 1000;

/// True of the decimal digit characters.
pub open spec fn is_dec_digit(c: char) -> bool {
    ('0' as u32) <= c as u32 && c as u32 <= ('9' as u32)
}

/// Numeric value of a decimal digit character.
pub open spec fn dec_digit_val(c: char) -> nat {
    (c as u32 - ('0' as u32)) as nat
}

pub open spec fn all_dec_digits(s: Seq<char>) -> bool {
    forall|i: int| 0 <= i < s.len() ==> is_dec_digit(#[trigger] s[i])
}

/// Value of a digit string, most significant digit first.
pub open spec fn dec_val(s: Seq<char>) -> nat
    decreases s.len(),
{
    if s.len() == 0 {
        0
    } else {
        dec_val(s.drop_last()) * 10 + dec_digit_val(s.last())
    }
}

/// The number an optionally plus-signed decimal numeral denotes, when it fits
/// in a u32; every other string parses to nothing.
pub open spec fn spec_parse_u32(s: Seq<char>) -> Option<u32> {
    let t = if s.len() > 0 && s[0] == '+' {
        s.subrange(1, s.len() as int)
    } else {
        s
    };
    if t.len() > 0 && all_dec_digits(t) && dec_val(t) <= u32::MAX {
        Some(dec_val(t) as u32)
    } else {
        None
    }
}

/// A longer digit prefix never denotes a smaller number.
proof fn lemma_dec_val_prefix(s: Seq<char>, k: int)
    requires
        0 <= k <= s.len(),
    ensures
        dec_val(s.take(k)) <= dec_val(s),
    decreases s.len() - k,
{
    if k == s.len() {
        assert(s.take(k) =~= s);
    } else {
        assert(s.take(k + 1).drop_last() =~= s.take(k));
        assert(s.take(k + 1).last() == s[k]);
        assert(dec_val(s.take(k + 1)) == dec_val(s.take(k)) * 10 + dec_digit_val(s[k]));
        lemma_dec_val_prefix(s, k + 1);
    }
}

/// Parses a decimal numeral as the standard library does for u32: an optional
/// leading plus sign, then at least one digit, rejecting any other character
/// and any value that overflows.
pub fn parse_u32(s: &str) -> (r: Option<u32>)
    ensures
        r == spec_parse_u32(s@),
{
    let n = s.unicode_len();
    let start: usize = if n > 0 && s.get_char(0) == '+' {
        1
    } else {
        0
    };
    let ghost t: Seq<char> = if s@.len() > 0 && s@[0] == '+' {
        s@.subrange(1, s@.len() as int)
    } else {
        s@
    };
    if start == n {
        return None;
    }
    let mut acc: u32 = 0;
    let mut j: usize = start;
    while j < n
        invariant
            start <= j <= n,
            n == s@.len(),
            t == (if s@.len() > 0 && s@[0] == '+' {
                s@.subrange(1, s@.len() as int)
            } else {
                s@
            }),
            t.len() == n - start,
            forall|i: int| 0 <= i < t.len() ==> t[i] == s@[i + start],
            all_dec_digits(t.take(j - start)),
            acc as nat == dec_val(t.take(j - start)),
        decreases n - j,
    {
        let c = s.get_char(j);
        let cv = c as u32;
        if cv < 48 || cv > 57 {
            proof {
                assert(!is_dec_digit(t[j - start]));
            }
            return None;
        }
        let d: u32 = cv - 48;
        proof {
            assert(t.take(j - start + 1).drop_last() =~= t.take(j - start));
            assert(t.take(j - start + 1).last() == t[j - start]);
            assert(dec_val(t.take(j - start + 1)) == acc as nat * 10 + d as nat);
            lemma_fundamental_div_mod((u32::MAX - d) as int, 10);
            lemma_mod_division_less_than_divisor((u32::MAX - d) as int, 10);
        }
        if acc > (u32::MAX - d) / 10 {
            proof {
                assert(acc as nat * 10 + d as nat > u32::MAX);
                lemma_dec_val_prefix(t, j - start + 1);
            }
            return None;
        }
        acc = acc * 10 + d;
        j = j + 1;
    }
    proof {
        assert(t.take(n - start) =~= t);
    }
    Some(acc)
}

/// Value of an optional textual parameter: absence and parse failure both
/// yield zero.
pub open spec fn spec_opt_param_u32(p: Option<Seq<char>>) -> u32 {
    match p {
        None => 0u32,
        Some(s) => match spec_parse_u32(s) {
            Some(v) => v,
            None => 0u32,
        },
    }
}

/// View of an optional borrowed string.
pub open spec fn view_opt(p: Option<&str>) -> Option<Seq<char>> {
    match p {
        Some(s) => Some(s@),
        None => None,
    }
}

/// Parses an optional pagination parameter, defaulting to zero.
pub fn parse_param_u32(p: Option<&str>) -> (r: u32)
    ensures
        r == spec_opt_param_u32(view_opt(p)),
{
    match p {
        None => 0,
        Some(s) => match parse_u32(s) {
            Some(v) => v,
            None => 0,
        },
    }
}

/// The page limit actually applied for a requested raw limit.
pub open spec fn spec_effective_limit(raw: u32) -> u32 {
    if raw > 4096 {
        4096u32
    } else if raw == 0 {
        1000u32
    } else {
        raw
    }
}

/// Clamps a parsed limit to the cap and replaces an absent one by the
/// default page size.
pub fn effective_limit(raw: u32) -> (r: u32)
    ensures
        r == spec_effective_limit(raw),
{
    if raw > LIMIT_CAP {
        LIMIT_CAP
    } else if raw == 0 {
        LIMIT_DEFAULT
    } else {
        raw
    }
}

/// Law: a requested limit above the cap is clamped to the cap; an absent,
/// unparsable or zero limit becomes the default page size; any other value
/// is applied as given.
pub proof fn lemma_limit_normalisation(p: Option<Seq<char>>)
    ensures
        spec_opt_param_u32(p) > 4096 ==> spec_effective_limit(spec_opt_param_u32(p)) == 4096,
        p is None ==> spec_effective_limit(spec_opt_param_u32(p)) == 1000,
        (p matches Some(s) && spec_parse_u32(s) is None) ==> spec_effective_limit(
            spec_opt_param_u32(p),
        ) == 1000,
        spec_opt_param_u32(p) == 0 ==> spec_effective_limit(spec_opt_param_u32(p)) == 1000,
        0 < spec_opt_param_u32(p) <= 4096 ==> spec_effective_limit(spec_opt_param_u32(p))
            == spec_opt_param_u32(p),
{
}

} // verus!
