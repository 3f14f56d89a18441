//! Decimal numerals: an amount as text, and text as a number.

use vstd::prelude::*;
use vstd::string::*;

verus! {

/// The character of a digit below ten.
pub open spec fn digit(d: nat) -> char {
    if d == 0 {
        '0'
    } else if d == 1 {
        '1'
    } else if d == 2 {
        '2'
    } else if d == 3 {
        '3'
    } else if d == 4 {
        '4'
    } else if d == 5 {
        '5'
    } else if d == 6 {
        '6'
    } else if d == 7 {
        '7'
    } else if d == 8 {
        '8'
    } else {
        '9'
    }
}

/// The decimal numeral of `n`: most significant digit first, no sign, no
/// leading zero but for zero itself.
pub open spec fn decimal(n: nat) -> Seq<char>
    decreases n,
{
    if n < 10 {
        seq![digit(n)]
    } else {
        decimal(n / 10).push(digit(n % 10))
    }
}

/// The value of a digit character, if it is one.
pub open spec fn digit_value(c: char) -> Option<nat> {
    if c == '0' {
        Some(0)
    } else if c == '1' {
        Some(1)
    } else if c == '2' {
        Some(2)
    } else if c == '3' {
        Some(3)
    } else if c == '4' {
        Some(4)
    } else if c == '5' {
        Some(5)
    } else if c == '6' {
        Some(6)
    } else if c == '7' {
        Some(7)
    } else if c == '8' {
        Some(8)
    } else if c == '9' {
        Some(9)
    } else {
        None
    }
}

/// A numeral has at least one character, exactly one below ten and more from
/// ten on; each character is a digit; it begins with `0` only for zero.
pub proof fn lemma_decimal_shape(n: nat)
    ensures
        decimal(n).len() >= 1,
        n < 10 <==> decimal(n).len() == 1,
        forall|i: int| 0 <= i < decimal(n).len() ==> digit_value(#[trigger] decimal(n)[i]) is Some,
        decimal(n)[0] == '0' ==> n == 0,
    decreases n,
{
    if n >= 10 {
        lemma_decimal_shape(n / 10);
    }
}

/// Different numbers have different numerals.
pub proof fn lemma_decimal_injective(a: nat, b: nat)
    requires
        decimal(a) == decimal(b),
    ensures
        a == b,
    decreases a,
{
    lemma_decimal_shape(a);
    lemma_decimal_shape(b);
    if a >= 10 {
        let sa = decimal(a / 10).push(digit(a % 10));
        let sb = decimal(b / 10).push(digit(b % 10));
        assert(sa.drop_last() == decimal(a / 10));
        assert(sb.drop_last() == decimal(b / 10));
        assert(sa.last() == digit(a % 10));
        assert(sb.last() == digit(b % 10));
        lemma_decimal_injective(a / 10, b / 10);
    } else {
        assert(decimal(a)[0] == digit(a));
        assert(decimal(b)[0] == digit(b));
    }
}

/// Every non-empty prefix of a numeral is the numeral of a number that is not
/// larger.
pub proof fn lemma_decimal_prefix(n: nat, j: int) -> (q: nat)
    requires
        1 <= j <= decimal(n).len(),
    ensures
        q <= n,
        decimal(q) == decimal(n).take(j),
    decreases n,
{
    lemma_decimal_shape(n);
    if j == decimal(n).len() {
        assert(decimal(n).take(j) =~= decimal(n));
        n
    } else {
        lemma_decimal_shape(n / 10);
        let q = lemma_decimal_prefix(n / 10, j);
        assert(decimal(n).take(j) =~= decimal(n / 10).take(j));
        q
    }
}

/// Appending a digit to the numeral of a positive number multiplies by ten
/// and adds the digit.
pub proof fn lemma_decimal_push(n: nat, d: nat)
    requires
        n >= 1,
        d < 10,
    ensures
        decimal(n * 10 + d) == decimal(n).push(digit(d)),
{
    assert((n * 10 + d) / 10 == n);
    assert((n * 10 + d) % 10 == d);
}

fn digit_str(d: u128) -> (r: &'static str)
    requires
        d < 10,
    ensures
        r@ == seq![digit(d as nat)],
{
    proof {
        reveal_strlit("0");
        reveal_strlit("1");
        reveal_strlit("2");
        reveal_strlit("3");
        reveal_strlit("4");
        reveal_strlit("5");
        reveal_strlit("6");
        reveal_strlit("7");
        reveal_strlit("8");
        reveal_strlit("9");
    }
    let r = if d == 0 {
        "0"
    } else if d == 1 {
        "1"
    } else if d == 2 {
        "2"
    } else if d == 3 {
        "3"
    } else if d == 4 {
        "4"
    } else if d == 5 {
        "5"
    } else if d == 6 {
        "6"
    } else if d == 7 {
        "7"
    } else if d == 8 {
        "8"
    } else {
        "9"
    };
    assert(r@ =~= seq![digit(d as nat)]);
    r
}

/// The decimal numeral of an amount.
pub fn u128_to_string(n: u128) -> (r: String)
    ensures
        r@ == decimal(n as nat),
{
    let mut rest: u128 = n / 10;
    let mut out = String::from_str(digit_str(n % 10));
    while rest > 0
        invariant
            decimal(n as nat) == if rest > 0 {
                decimal(rest as nat) + out@
            } else {
                out@
            },
        decreases rest,
    {
        let d = digit_str(rest % 10);
        let next = String::from_str(d).concat(out.as_str());
        proof {
            let r = rest as nat;
            if r >= 10 {
                assert(decimal(r) + out@ =~= decimal(r / 10) + next@);
            } else {
                assert(decimal(r) + out@ =~= next@);
            }
        }
        out = next;
        rest = rest / 10;
    }
    out
}

fn digit_of(c: char) -> (r: Option<u64>)
    ensures
        match r {
            Some(d) => digit_value(c) == Some(d as nat) && d < 10 && c == digit(d as nat),
            None => digit_value(c) is None,
        },
{
    if c == '0' {
        Some(0)
    } else if c == '1' {
        Some(1)
    } else if c == '2' {
        Some(2)
    } else if c == '3' {
        Some(3)
    } else if c == '4' {
        Some(4)
    } else if c == '5' {
        Some(5)
    } else if c == '6' {
        Some(6)
    } else if c == '7' {
        Some(7)
    } else if c == '8' {
        Some(8)
    } else if c == '9' {
        Some(9)
    } else {
        None
    }
}

/// Reads the characters from `from` on as the decimal numeral of a `u64`:
/// `Some(n)` exactly when they are the numeral of `n`.
pub fn parse_u64(chars: &Vec<char>, from: usize) -> (r: Option<u64>)
    requires
        from <= chars@.len(),
    ensures
        match r {
            Some(n) => chars@.skip(from as int) == decimal(n as nat),
            None => forall|n: u64| chars@.skip(from as int) != decimal(n as nat),
        },
{
    let ghost s = chars@.skip(from as int);
    let len = chars.len();
    proof {
        assert forall|n: u64| true implies decimal(n as nat).len() >= 1 by {
            lemma_decimal_shape(n as nat);
        }
    }
    if from == len {
        assert(s.len() == 0);
        return None;
    }
    let first = match digit_of(chars[from]) {
        Some(d) => d,
        None => {
            proof {
                assert(s[0] == chars@[from as int]);
                assert forall|n: u64| s != decimal(n as nat) by {
                    lemma_decimal_shape(n as nat);
                    if s == decimal(n as nat) {
                        assert(digit_value(decimal(n as nat)[0]) is Some);
                    }
                }
            }
            return None;
        },
    };
    if first == 0 && len - from > 1 {
        proof {
            assert(s[0] == chars@[from as int]);
            assert forall|n: u64| s != decimal(n as nat) by {
                lemma_decimal_shape(n as nat);
            }
        }
        return None;
    }
    let mut acc: u64 = first;
    let mut i: usize = from + 1;
    proof {
        assert(s.take(1) =~= seq![s[0]]);
        assert(s[0] == chars@[from as int]);
    }
    while i < len
        invariant
            from < i <= len,
            len == chars@.len(),
            s == chars@.skip(from as int),
            decimal(acc as nat) == s.take(i - from),
            acc >= 1 || len - from == 1,
        decreases len - i,
    {
        let ghost k = i - from;
        proof {
            assert(s[k] == chars@[i as int]);
            assert(s.take(k + 1) =~= s.take(k).push(s[k]));
        }
        let d = match digit_of(chars[i]) {
            Some(d) => d,
            None => {
                proof {
                    assert forall|n: u64| s != decimal(n as nat) by {
                        lemma_decimal_shape(n as nat);
                        if s == decimal(n as nat) {
                            assert(digit_value(decimal(n as nat)[k]) is Some);
                        }
                    }
                }
                return None;
            },
        };
        proof {
            lemma_decimal_push(acc as nat, d as nat);
        }
        if acc > (u64::MAX - d) / 10 {
            proof {
                assert forall|n: u64| s != decimal(n as nat) by {
                    if s == decimal(n as nat) {
                        let q = lemma_decimal_prefix(n as nat, k + 1);
                        lemma_decimal_injective(q, (acc as nat) * 10 + (d as nat));
                    }
                }
            }
            return None;
        }
        acc = acc * 10 + d;
        i += 1;
    }
    assert(s.take(len - from) =~= s);
    Some(acc)
}

} // verus!
