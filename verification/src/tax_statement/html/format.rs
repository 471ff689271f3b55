//! Number formatting shared by the jurisdiction reports.
//!
//! EUR amounts go through the statement's own `format_eur` (round half away from zero, two places)
//! and are only re-punctuated here, so a report never disagrees with the CSV or the console by a
//! rounding cent. German and Spanish notation coincide (`1.234,56`), so one punctuation pass serves
//! both.
use vstd::prelude::*;
use vstd::string::StringSliceAdditionalSpecFns;
use vstd::utf8::encode_utf8;

use crate::decimal::{in_range, small_bound, unit, Decimal};
use crate::tax_statement::eur::{eur_ok, eur_text, format_eur};
use crate::text::{first_index, holds, int_text, push_char, push_int};

verus! {

/// A text without its leading minus sign, and whether it had one.
pub open spec fn strip_minus(s: Seq<char>) -> (bool, Seq<char>) {
    if s.len() > 0 && s[0] == '-' {
        (true, s.drop_first())
    } else {
        (false, s)
    }
}

/// The integer digits of a number text and its fraction digits, split at the first `.`.
pub open spec fn split_point(s: Seq<char>) -> (Seq<char>, Option<Seq<char>>) {
    if holds(s, '.') {
        let k = first_index(s, '.');
        (s.take(k), Some(s.skip(k + 1)))
    } else {
        (s, None)
    }
}

pub open spec fn all_zeros(s: Seq<char>) -> bool {
    forall|i: int| 0 <= i < s.len() ==> #[trigger] s[i] == '0'
}

/// The first `k` characters of the integer part, a `.` before every position whose distance from
/// the end (`total`, counted in bytes) is a multiple of three.
pub open spec fn grouped(s: Seq<char>, k: nat, total: int) -> Seq<char>
    decreases k,
{
    if k == 0 {
        seq![]
    } else {
        let i = k - 1;
        grouped(s, i as nat, total) + (if i > 0 && (total - i) % 3 == 0 {
            seq!['.']
        } else {
            seq![]
        }) + seq![s[i]]
    }
}

/// `-1234.56` re-punctuated as `-1.234,56`; a value that is all zeros loses its sign.
pub open spec fn punctuated(plain: Seq<char>) -> Seq<char> {
    let (negative, rest) = strip_minus(plain);
    let (integer, fraction) = split_point(rest);
    let is_zero = all_zeros(integer) && match fraction {
        Some(f) => all_zeros(f),
        None => true,
    };
    (if negative && !is_zero {
        seq!['-']
    } else {
        seq![]
    }) + grouped(integer, integer.len(), encode_utf8(integer).len() as int) + match fraction {
        Some(f) => seq![','] + f,
        None => seq![],
    }
}

/// Every character takes at least one byte.
proof fn lemma_encoded_length(s: Seq<char>)
    ensures
        encode_utf8(s).len() >= s.len(),
    decreases s.len(),
{
    if s.len() > 0 {
        lemma_encoded_length(s.drop_first());
        assert(vstd::utf8::encode_scalar(s[0] as u32).len() >= 1);
    }
}

fn all_zero_chars(s: &str) -> (r: bool)
    ensures
        r == all_zeros(s@),
{
    let n = s.unicode_len();
    let mut i: usize = 0;
    while i < n
        invariant
            n == s@.len(),
            i <= n,
            forall|j: int| 0 <= j < i ==> #[trigger] s@[j] == '0',
        decreases n - i,
    {
        if s.get_char(i) != '0' {
            return false;
        }
        i = i + 1;
    }
    true
}

/// Re-punctuate a plain `-1234.56` style number as `-1.234,56`. A value that rounds to zero loses
/// its sign (`-0.00` → `0,00`).
pub fn punctuate(plain: &str) -> (r: String)
    ensures
        r@ == punctuated(plain@),
{
    let n = plain.unicode_len();
    let negative = n > 0 && plain.get_char(0) == '-';
    let start: usize = if negative {
        1
    } else {
        0
    };
    let rest = plain.substring_char(start, n);
    proof {
        assert(rest@ == strip_minus(plain@).1);
    }
    let m = rest.unicode_len();
    let mut dot: usize = 0;
    while dot < m && rest.get_char(dot) != '.'
        invariant
            m == rest@.len(),
            dot <= m,
            forall|j: int| 0 <= j < dot ==> rest@[j] != '.',
        decreases m - dot,
    {
        dot = dot + 1;
    }
    let has_point = dot < m;
    proof {
        if has_point {
            let k = first_index(rest@, '.');
            assert(rest@[dot as int] == '.');
            assert(holds(rest@, '.'));
            if k < dot {
                assert(rest@[k] != '.');
            }
            if k > dot {
                assert(rest@[dot as int] != '.');
            }
        } else {
            assert(!holds(rest@, '.'));
        }
    }
    let integer = rest.substring_char(0, dot);
    let fraction: Option<&str> = if has_point {
        Some(rest.substring_char(dot + 1, m))
    } else {
        None
    };
    proof {
        assert(integer@ =~= split_point(rest@).0);
        if has_point {
            assert(fraction.unwrap()@ =~= split_point(rest@).1.unwrap());
        }
    }
    let is_zero = all_zero_chars(integer) && match fraction {
        Some(f) => all_zero_chars(f),
        None => true,
    };
    let mut out = String::new();
    if negative && !is_zero {
        push_char(&mut out, '-');
    }
    let ghost head = out@;
    let digits = integer.as_bytes().len();
    let count = integer.unicode_len();
    proof {
        lemma_encoded_length(integer@);
    }
    let mut index: usize = 0;
    while index < count
        invariant
            count == integer@.len(),
            digits == encode_utf8(integer@).len(),
            count <= encode_utf8(integer@).len(),
            index <= count,
            out@ == head + grouped(integer@, index as nat, digits as int),
        decreases count - index,
    {
        let ch = integer.get_char(index);
        if index > 0 && (digits - index) % 3 == 0 {
            push_char(&mut out, '.');
        }
        push_char(&mut out, ch);
        proof {
            assert(out@ =~= head + grouped(integer@, (index + 1) as nat, digits as int));
        }
        index = index + 1;
    }
    match fraction {
        Some(f) => {
            push_char(&mut out, ',');
            out.append(f);
        },
        None => {},
    }
    proof {
        assert(out@ =~= punctuated(plain@));
    }
    out
}

/// EUR amount, two places, punctuated (`1.234,50`).
pub fn eur(value: Decimal) -> (r: String)
    requires
        eur_ok(value),
    ensures
        r@ == punctuated(eur_text(value)),
{
    punctuate(format_eur(value).as_str())
}

/// Any two-place amount (prices, foreign-currency cash), same rounding as EUR.
pub fn dec2(value: Decimal) -> (r: String)
    requires
        eur_ok(value),
    ensures
        r@ == punctuated(eur_text(value)),
{
    eur(value)
}

/// An exchange rate as the report writes it: rounded to four places, halves away from zero,
/// written with four.
pub open spec fn rate_text(v: Decimal) -> Seq<char> {
    punctuated(v.spec_round_dp(4).spec_rescaled_up(4).text())
}

/// Exchange rate with four places.
pub fn rate(value: Decimal) -> (r: String)
    requires
        eur_ok(value),
    ensures
        r@ == rate_text(value),
{
    let _ = value.scale();
    proof {
        value.lemma_four_places_rescalable();
    }
    let rounded = value.round_dp(4);
    punctuate(rounded.rescale_up(4).to_text().as_str())
}

/// Quantity with up to four places and no trailing zeros.
pub fn qty(value: Decimal) -> (r: String)
    ensures
        r@ == punctuated(value.spec_round_dp(4).spec_normalized().text()),
{
    let rounded = value.round_dp(4);
    punctuate(rounded.normalize().to_text().as_str())
}

/// A fraction as a percentage: times 100, rounded to `places`, without trailing zeros, then ` %`.
pub open spec fn pct_text(fraction: Decimal, places: nat) -> Seq<char> {
    punctuated(
        fraction.spec_mul(Decimal::spec_new(100, 0)).spec_round_dp(places).spec_normalized().text(),
    ) + " %"@
}

/// A fraction (`0.15`) as a percentage (`15 %`), up to two decimals.
pub fn pct(fraction: Decimal) -> (r: String)
    requires
        eur_ok(fraction),
    ensures
        r@ == pct_text(fraction, 2),
{
    pct_with_places(fraction, 2)
}

/// A percentage rounded to one decimal, for observed rates (`0.14994` → `15 %`).
pub fn pct_observed(fraction: Decimal) -> (r: String)
    requires
        eur_ok(fraction),
    ensures
        r@ == pct_text(fraction, 1),
{
    pct_with_places(fraction, 1)
}

fn pct_with_places(fraction: Decimal, places: u32) -> (r: String)
    requires
        eur_ok(fraction),
        places <= 28,
    ensures
        r@ == pct_text(fraction, places as nat),
{
    let hundred = Decimal::new(100, 0);
    proof {
        crate::decimal::lemma_pow10_28();
        assert(hundred.units() == 100 * unit());
        assert(in_range(fraction.units() * hundred.units() / unit())) by (nonlinear_arith)
            requires
                -small_bound() <= fraction.units() <= small_bound(),
                hundred.units() == 100 * unit(),
                unit() == 10_000_000_000_000_000_000_000_000_000,
        {
        }
    }
    let value = fraction.mul(&hundred).round_dp(places).normalize();
    let mut r = punctuate(value.to_text().as_str());
    r.append(" %");
    r
}

/// A number of days.
pub fn days(value: i64) -> (r: String)
    ensures
        r@ == int_text(value as int),
{
    let mut r = String::new();
    push_int(&mut r, value);
    r
}

} // verus!
