//! Exact decimal numbers for prices, quantities and fees: a mantissa and a
//! base-10 scale, never binary floating point. Parsing accepts an optional
//! leading minus, at least one digit, and at most one interior dot.

use vstd::prelude::*;

verus! {

broadcast use vstd::seq::group_seq_axioms;

/// Largest mantissa a `Dec` may carry (96 bits of magnitude).
pub const DEC_MAX_MANTISSA: u128 = 79228162514264337593543950335;

/// Largest scale a `Dec` may carry.
pub const DEC_MAX_SCALE: u32 = 28;

/// The value `mantissa * 10^(-scale)`, exactly.
#[derive(Debug, Clone, Copy, PartialEq, Eq, Structural)]
pub struct Dec {
    pub mantissa: i128,
    pub scale: u32,
}

pub open spec fn is_digit(c: char) -> bool {
    '0' <= c && c <= '9'
}

/// The numeric value of one digit character.
pub open spec fn digit_of(c: char) -> nat {
    if c == '0' {
        0
    } else if c == '1' {
        1
    } else if c == '2' {
        2
    } else if c == '3' {
        3
    } else if c == '4' {
        4
    } else if c == '5' {
        5
    } else if c == '6' {
        6
    } else if c == '7' {
        7
    } else if c == '8' {
        8
    } else {
        9
    }
}

/// The value of a digit string read in base 10.
pub open spec fn digits_val(s: Seq<char>) -> nat
    decreases s.len(),
{
    if s.len() == 0 {
        0
    } else {
        digits_val(s.drop_last()) * 10 + digit_of(s.last())
    }
}

/// The string with every `'.'` removed.
pub open spec fn strip_dots(s: Seq<char>) -> Seq<char>
    decreases s.len(),
{
    if s.len() == 0 {
        s
    } else if s.last() == '.' {
        strip_dots(s.drop_last())
    } else {
        strip_dots(s.drop_last()).push(s.last())
    }
}

pub open spec fn has_dot(s: Seq<char>) -> bool
    decreases s.len(),
{
    s.len() > 0 && (s.last() == '.' || has_dot(s.drop_last()))
}

/// How many characters follow the dot; zero when there is none.
pub open spec fn spec_scale_of(s: Seq<char>) -> nat
    decreases s.len(),
{
    if s.len() == 0 {
        0
    } else if s.last() == '.' {
        0
    } else if has_dot(s.drop_last()) {
        spec_scale_of(s.drop_last()) + 1
    } else {
        0
    }
}

/// A well-formed unsigned decimal body: nonempty, digits and at most one
/// dot, neither starting nor ending with the dot.
pub open spec fn valid_dec_body(b: Seq<char>) -> bool {
    &&& b.len() >= 1
    &&& forall|i: int| 0 <= i < b.len() ==> is_digit(#[trigger] b[i]) || b[i] == '.'
    &&& b[0] != '.'
    &&& b.last() != '.'
    &&& forall|i: int, j: int|
        0 <= i < j < b.len() ==> !(#[trigger] b[i] == '.' && #[trigger] b[j] == '.')
}

/// What a decimal string denotes: `None` for a malformed string or one
/// beyond the mantissa or scale capacity.
pub open spec fn spec_parse_dec(s: Seq<char>) -> Option<Dec> {
    let neg = s.len() > 0 && s[0] == '-';
    let b = if neg {
        s.subrange(1, s.len() as int)
    } else {
        s
    };
    if !valid_dec_body(b) {
        None
    } else {
        let m = digits_val(strip_dots(b));
        let sc = spec_scale_of(b);
        if m > DEC_MAX_MANTISSA as nat || sc > DEC_MAX_SCALE as nat {
            None
        } else {
            Some(
                Dec {
                    mantissa: if neg {
                        (-(m as int)) as i128
                    } else {
                        m as i128
                    },
                    scale: sc as u32,
                },
            )
        }
    }
}

/// A string has a dot exactly when some position holds one.
proof fn lemma_has_dot_exists(s: Seq<char>)
    ensures
        has_dot(s) <==> exists|i: int| 0 <= i < s.len() && s[i] == '.',
    decreases s.len(),
{
    if s.len() > 0 {
        lemma_has_dot_exists(s.drop_last());
        if s.last() == '.' {
            assert(s[s.len() - 1] == '.');
        } else if has_dot(s.drop_last()) {
            let i = choose|i: int| 0 <= i < s.drop_last().len() && s.drop_last()[i] == '.';
            assert(s[i] == '.');
        } else {
            assert forall|i: int| 0 <= i < s.len() implies s[i] != '.' by {
                if i < s.len() - 1 {
                    assert(s.drop_last()[i] == s[i]);
                }
            }
        }
    }
}

fn digit_char_str(c: char) -> (r: &'static str)
    requires
        is_digit(c),
    ensures
        r@ == seq![c],
{
    proof {
        reveal_strlit("0");
        reveal_strlit("1");
        reveal_strlit("2");
        reveal_strlit("3");
        reveal_strlit("4");
        reveal_strlit("5");
        reveal_strlit("6");
        reveal_strlit("7");
        reveal_strlit("8");
        reveal_strlit("9");
    }
    if c == '0' {
        "0"
    } else if c == '1' {
        "1"
    } else if c == '2' {
        "2"
    } else if c == '3' {
        "3"
    } else if c == '4' {
        "4"
    } else if c == '5' {
        "5"
    } else if c == '6' {
        "6"
    } else if c == '7' {
        "7"
    } else if c == '8' {
        "8"
    } else {
        "9"
    }
}

fn digit_value(c: char) -> (d: u128)
    requires
        is_digit(c),
    ensures
        d as nat == digit_of(c),
{
    if c == '0' {
        0
    } else if c == '1' {
        1
    } else if c == '2' {
        2
    } else if c == '3' {
        3
    } else if c == '4' {
        4
    } else if c == '5' {
        5
    } else if c == '6' {
        6
    } else if c == '7' {
        7
    } else if c == '8' {
        8
    } else {
        9
    }
}

/// The base-10 value of the first `k` characters of a digit string, or
/// `None` once it passes the mantissa capacity.
fn digits_val_prefix(s: &str, k: usize) -> (r: Option<u128>)
    requires
        k <= s@.len(),
        forall|i: int| 0 <= i < s@.len() ==> is_digit(#[trigger] s@[i]),
    ensures
        match r {
            Some(v) => v as nat == digits_val(s@.subrange(0, k as int)) && v <= DEC_MAX_MANTISSA,
            None => digits_val(s@.subrange(0, k as int)) > DEC_MAX_MANTISSA as nat,
        },
    decreases k,
{
    if k == 0 {
        assert(s@.subrange(0, 0) =~= Seq::<char>::empty());
        Some(0)
    } else {
        let pre = digits_val_prefix(s, k - 1);
        let c = s.get_char(k - 1);
        proof {
            assert(s@.subrange(0, k as int).drop_last() =~= s@.subrange(0, k as int - 1));
            assert(s@.subrange(0, k as int).last() == s@[k as int - 1]);
        }
        match pre {
            None => {
                proof {
                    let dv = digits_val(s@.subrange(0, k as int - 1));
                    assert(digits_val(s@.subrange(0, k as int)) == dv * 10 + digit_of(c));
                    assert(dv * 10 >= dv) by (nonlinear_arith)
                        requires dv >= 0;
                }
                None
            },
            Some(v) => {
                let d = digit_value(c);
                let w = v * 10 + d;
                if w > DEC_MAX_MANTISSA {
                    None
                } else {
                    Some(w)
                }
            },
        }
    }
}

impl Dec {
    /// Parses a decimal string; `None` exactly on the strings that denote
    /// no representable decimal.
    pub fn parse(s: &str) -> (r: Option<Dec>)
        ensures
            r == spec_parse_dec(s@),
    {
        let n = s.unicode_len();
        let neg = n > 0 && s.get_char(0) == '-';
        let start: usize = if neg { 1 } else { 0 };
        let ghost b = if neg { s@.subrange(1, s@.len() as int) } else { s@ };
        proof {
            if !neg {
                assert(s@.subrange(0, s@.len() as int) =~= s@);
            }
        }
        if n == start {
            return None;
        }
        let mut digits = String::new();
        let mut dot_idx: Option<usize> = None;
        let mut scale_ctr: usize = 0;
        let mut i = start;
        while i < n
            invariant
                start <= i <= n,
                n == s@.len(),
                start == 1 <==> (s@.len() > 0 && s@[0] == '-'),
                start == 0 || start == 1,
                b == s@.subrange(start as int, n as int),
                n > start,
                forall|j: int|
                    0 <= j < i - start ==> is_digit(#[trigger] b[j]) || b[j] == '.',
                i > start ==> b[0] != '.',
                digits@ == strip_dots(b.subrange(0, i - start)),
                forall|j: int| 0 <= j < digits@.len() ==> is_digit(#[trigger] digits@[j]),
                match dot_idx {
                    Some(d) => start <= d < i && b[d - start] == '.' && (forall|j: int|
                        0 <= j < i - start && j != d - start ==> #[trigger] b[j] != '.'),
                    None => forall|j: int| 0 <= j < i - start ==> #[trigger] b[j] != '.',
                },
                scale_ctr as nat == spec_scale_of(b.subrange(0, i - start)),
                scale_ctr <= i,
            decreases n - i,
        {
            let c = s.get_char(i);
            proof {
                assert(b[i - start] == s@[i as int]);
                let pre = b.subrange(0, i - start);
                let pushed = b.subrange(0, i + 1 - start);
                assert(pushed =~= pre.push(b[i - start]));
                assert(pushed.drop_last() =~= pre);
                assert(pushed.last() == b[i - start]);
                lemma_has_dot_exists(pre);
            }
            if c == '.' {
                if i == start {
                    // a body may not start with the dot
                    return None;
                }
                match dot_idx {
                    Some(d) => {
                        // two dots: the body is malformed
                        proof {
                            assert(b[d - start] == '.' && b[i - start] == '.');
                        }
                        return None;
                    },
                    None => {
                        dot_idx = Some(i);
                        scale_ctr = 0;
                    },
                }
            } else if '0' <= c && c <= '9' {
                digits.append(digit_char_str(c));
                if dot_idx.is_some() {
                    scale_ctr = scale_ctr + 1;
                    proof {
                        let pre = b.subrange(0, i - start);
                        let d = dot_idx->Some_0;
                        assert(pre[d - start] == '.');
                        assert(has_dot(pre));
                        assert(spec_scale_of(b.subrange(0, i + 1 - start)) == spec_scale_of(pre)
                            + 1);
                    }
                } else {
                    proof {
                        let pre = b.subrange(0, i - start);
                        assert(!has_dot(pre));
                        assert(spec_scale_of(b.subrange(0, i + 1 - start)) == 0);
                        if pre.len() > 0 {
                            lemma_has_dot_exists(pre.drop_last());
                            assert(forall|j: int|
                                0 <= j < pre.drop_last().len() ==> pre.drop_last()[j] == pre[j]);
                            assert(!has_dot(pre.drop_last()));
                            assert(spec_scale_of(pre) == 0);
                        }
                    }
                }
            } else {
                // neither digit nor dot
                return None;
            }
            i = i + 1;
        }
        proof {
            assert(b.subrange(0, n - start) =~= b);
            lemma_has_dot_exists(b);
        }
        // the body may not end with the dot
        match dot_idx {
            Some(d) => {
                if d == n - 1 {
                    return None;
                }
                proof {
                    assert(b.last() == b[n - 1 - start]);
                }
            },
            None => {},
        }
        assert(valid_dec_body(b));
        if scale_ctr > 28 {
            return None;
        }
        let digits_len = digits.as_str().unicode_len();
        proof {
            assert(digits@.subrange(0, digits@.len() as int) =~= digits@);
        }
        let m = match digits_val_prefix(digits.as_str(), digits_len) {
            Some(v) => v,
            None => {
                return None;
            },
        };
        let mantissa: i128 = if neg {
            -(m as i128)
        } else {
            m as i128
        };
        Some(Dec { mantissa, scale: scale_ctr as u32 })
    }
}

} // verus!
