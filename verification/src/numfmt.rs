//! Decimal rendering of unsigned integers, used for timestamps in the
//! string-to-sign and for depth levels in subscription strings.

use vstd::prelude::*;

verus! {

/// The character for one decimal digit.
pub open spec fn spec_digit_char(d: int) -> char {
    if d == 0 {
        '0'
    } else if d == 1 {
        '1'
    } else if d == 2 {
        '2'
    } else if d == 3 {
        '3'
    } else if d == 4 {
        '4'
    } else if d == 5 {
        '5'
    } else if d == 6 {
        '6'
    } else if d == 7 {
        '7'
    } else if d == 8 {
        '8'
    } else {
        '9'
    }
}

/// The base-10 rendering of `n`, most significant digit first, no sign,
/// no leading zeros (a single `'0'` for zero).
pub open spec fn spec_u64_dec(n: nat) -> Seq<char>
    decreases n,
{
    if n < 10 {
        seq![spec_digit_char(n as int)]
    } else {
        spec_u64_dec(n / 10).push(spec_digit_char((n % 10) as int))
    }
}

fn digit_str(d: u64) -> (r: &'static str)
    requires
        d < 10,
    ensures
        r@ == seq![spec_digit_char(d as int)],
{
    proof {
        reveal_strlit("0");
        reveal_strlit("1");
        reveal_strlit("2");
        reveal_strlit("3");
        reveal_strlit("4");
        reveal_strlit("5");
        reveal_strlit("6");
        reveal_strlit("7");
        reveal_strlit("8");
        reveal_strlit("9");
    }
    if d == 0 {
        "0"
    } else if d == 1 {
        "1"
    } else if d == 2 {
        "2"
    } else if d == 3 {
        "3"
    } else if d == 4 {
        "4"
    } else if d == 5 {
        "5"
    } else if d == 6 {
        "6"
    } else if d == 7 {
        "7"
    } else if d == 8 {
        "8"
    } else {
        "9"
    }
}

/// Renders `n` in base 10.
pub fn u64_to_dec_string(n: u64) -> (r: String)
    ensures
        r@ == spec_u64_dec(n as nat),
    decreases n,
{
    let last = digit_str(n % 10);
    if n < 10 {
        String::from_str(last)
    } else {
        let mut s = u64_to_dec_string(n / 10);
        s.append(last);
        s
    }
}

/// Every character of a decimal rendering is a digit, and the rendering is
/// never empty.
pub proof fn lemma_u64_dec_digits(n: nat)
    ensures
        spec_u64_dec(n).len() >= 1,
        forall|i: int|
            0 <= i < spec_u64_dec(n).len() ==> '0' <= #[trigger] spec_u64_dec(n)[i] <= '9',
    decreases n,
{
    if n >= 10 {
        lemma_u64_dec_digits(n / 10);
    }
}

/// Decimal rendering is injective: equal renderings come from equal numbers.
pub proof fn lemma_u64_dec_injective(m: nat, n: nat)
    requires
        spec_u64_dec(m) == spec_u64_dec(n),
    ensures
        m == n,
    decreases m,
{
    if m < 10 && n < 10 {
        assert(spec_u64_dec(m)[0] == spec_digit_char(m as int));
        assert(spec_u64_dec(n)[0] == spec_digit_char(n as int));
    } else if m < 10 {
        lemma_u64_dec_digits(n / 10);
        assert(spec_u64_dec(n).len() >= 2);
        assert(spec_u64_dec(m).len() == 1);
    } else if n < 10 {
        lemma_u64_dec_digits(m / 10);
        assert(spec_u64_dec(m).len() >= 2);
        assert(spec_u64_dec(n).len() == 1);
    } else {
        let sm = spec_u64_dec(m / 10);
        let sn = spec_u64_dec(n / 10);
        assert(sm.push(spec_digit_char((m % 10) as int)) == sn.push(
            spec_digit_char((n % 10) as int),
        ));
        assert(sm.len() == sn.len());
        assert(sm.push(spec_digit_char((m % 10) as int))[sm.len() as int] == spec_digit_char(
            (m % 10) as int,
        ));
        assert(sn.push(spec_digit_char((n % 10) as int))[sn.len() as int] == spec_digit_char(
            (n % 10) as int,
        ));
        assert(m % 10 == n % 10);
        assert forall|i: int| 0 <= i < sm.len() implies sm[i] == sn[i] by {
            assert(sm.push(spec_digit_char((m % 10) as int))[i] == sm[i]);
            assert(sn.push(spec_digit_char((n % 10) as int))[i] == sn[i]);
        }
        assert(sm =~= sn);
        lemma_u64_dec_injective(m / 10, n / 10);
    }
}

} // verus!
