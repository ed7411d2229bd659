//! Human-readable sizes in base-1024 units with two decimals.

use vstd::prelude::*;

verus! {

/// The largest unit index: TB.
pub const LARGEST_UNIT: usize = 4;

pub open spec fn pow1024(i: nat) -> nat
    decreases i,
{
    if i == 0 {
        1
    } else {
        1024 * pow1024((i - 1) as nat)
    }
}

/// Starting from unit `i`, move to the next unit while the scaled value is
/// still at least 1024 and a larger unit exists.
pub open spec fn unit_from(bytes: nat, i: nat) -> nat
    decreases LARGEST_UNIT - i,
{
    if i < LARGEST_UNIT && bytes >= pow1024(i + 1) {
        unit_from(bytes, i + 1)
    } else {
        i
    }
}

pub open spec fn unit_of(bytes: nat) -> nat {
    unit_from(bytes, 0)
}

pub open spec fn unit_name(i: nat) -> Seq<char> {
    if i == 0 {
        seq!['B']
    } else if i == 1 {
        seq!['K', 'B']
    } else if i == 2 {
        seq!['M', 'B']
    } else if i == 3 {
        seq!['G', 'B']
    } else {
        seq!['T', 'B']
    }
}

/// `n / d` rounded to the nearest integer, ties to the even neighbour.
pub open spec fn round_half_even(n: nat, d: nat) -> nat
    recommends
        d > 0,
{
    let q = n / d;
    let r = n % d;
    if 2 * r > d || (2 * r == d && q % 2 == 1) {
        q + 1
    } else {
        q
    }
}

/// The size in hundredths of the selected unit.
pub open spec fn hundredths(bytes: nat) -> nat {
    round_half_even(bytes * 100, pow1024(unit_of(bytes)))
}

pub open spec fn digit_char(d: nat) -> char {
    ((48 + d) as u8) as char
}

/// Decimal digits of `n`, without leading zeros.
pub open spec fn decimal(n: nat) -> Seq<char>
    decreases n,
{
    if n < 10 {
        seq![digit_char(n)]
    } else {
        decimal(n / 10).push(digit_char(n % 10))
    }
}

/// The text of a size: whole units, a point, two decimals, a space, the unit.
pub open spec fn size_text(bytes: nat) -> Seq<char> {
    let h = hundredths(bytes);
    decimal(h / 100) + seq!['.', digit_char((h % 100) / 10), digit_char(h % 10), ' '] + unit_name(
        unit_of(bytes),
    )
}

/// Relies on String::push: appends one character.
#[verifier::external_body]
pub(crate) fn push_char(s: &mut String, c: char)
    ensures
        final(s)@ == old(s)@.push(c),
{
    s.push(c)
}

fn digit(d: u128) -> (c: char)
    requires
        d < 10,
    ensures
        c == digit_char(d as nat),
{
    ((48 + d) as u8) as char
}

fn push_decimal(s: &mut String, n: u128)
    ensures
        final(s)@ == old(s)@ + decimal(n as nat),
    decreases n,
{
    if n < 10 {
        push_char(s, digit(n));
        assert(final(s)@ =~= old(s)@ + decimal(n as nat));
    } else {
        push_decimal(s, n / 10);
        push_char(s, digit(n % 10));
        assert(final(s)@ =~= old(s)@ + decimal(n as nat));
    }
}

proof fn lemma_pow_bounds(i: nat)
    requires
        i <= LARGEST_UNIT,
    ensures
        1 <= pow1024(i) <= pow1024(4),
        pow1024(4) == 1099511627776,
    decreases i,
{
    reveal_with_fuel(pow1024, 5);
    if i > 0 {
        lemma_pow_bounds((i - 1) as nat);
    }
}

/// Formats a byte count with the largest base-1024 unit (B, KB, MB, GB, TB)
/// in which the value is below 1024, or TB, rounded to two decimals.
pub fn format_size(bytes: u64) -> (r: String)
    ensures
        r@ == size_text(bytes as nat),
{
    let mut i: usize = 0;
    let mut div: u64 = 1;
    while i < LARGEST_UNIT && bytes / 1024 >= div
        invariant
            i <= LARGEST_UNIT,
            div as nat == pow1024(i as nat),
            unit_from(bytes as nat, i as nat) == unit_of(bytes as nat),
        decreases LARGEST_UNIT - i,
    {
        proof {
            lemma_pow_bounds(i as nat);
            assert(bytes as nat >= pow1024(i as nat + 1)) by (nonlinear_arith)
                requires
                    bytes as nat / 1024 >= div as nat,
                    pow1024(i as nat + 1) == 1024 * (div as nat),
            ;
        }
        div = div * 1024;
        i = i + 1;
    }
    proof {
        lemma_pow_bounds(i as nat);
        if i < LARGEST_UNIT {
            assert(!(bytes as nat >= pow1024(i as nat + 1))) by (nonlinear_arith)
                requires
                    (bytes as nat) / 1024 < div as nat,
                    pow1024(i as nat + 1) == 1024 * (div as nat),
            ;
        }
    }
    let n: u128 = (bytes as u128) * 100;
    let d: u128 = div as u128;
    let q: u128 = n / d;
    let rem: u128 = n % d;
    let h: u128 = if 2 * rem > d || (2 * rem == d && q % 2 == 1) {
        q + 1
    } else {
        q
    };
    let mut r = String::new();
    push_decimal(&mut r, h / 100);
    push_char(&mut r, '.');
    push_char(&mut r, digit((h % 100) / 10));
    push_char(&mut r, digit(h % 10));
    push_char(&mut r, ' ');
    let name = if i == 0 {
        "B"
    } else if i == 1 {
        "KB"
    } else if i == 2 {
        "MB"
    } else if i == 3 {
        "GB"
    } else {
        "TB"
    };
    proof {
        reveal_strlit("B");
        reveal_strlit("KB");
        reveal_strlit("MB");
        reveal_strlit("GB");
        reveal_strlit("TB");
    }
    r.append(name);
    assert(r@ =~= size_text(bytes as nat));
    r
}

} // verus!
