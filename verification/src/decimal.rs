//! Decimal text for unsigned integers, as `u64::to_string` writes it and
//! `str::parse::<u64>` reads it.
use vstd::prelude::*;

verus! {

/// The character of a decimal digit value.
pub open spec fn digit_char(d: nat) -> char {
    (48 + d) as char
}

/// Whether `c` is one of the ASCII digits `0` to `9`.
pub open spec fn is_digit(c: char) -> bool {
    '0' <= c && c <= '9'
}

/// The value of an ASCII digit.
pub open spec fn digit_value(c: char) -> nat {
    (c as int - 48) as nat
}

/// Every character of `s` is an ASCII digit.
pub open spec fn all_digits(s: Seq<char>) -> bool {
    forall|i: int| 0 <= i < s.len() ==> is_digit(#[trigger] s[i])
}

/// The number that a string of ASCII digits denotes.
pub open spec fn digits_value(s: Seq<char>) -> nat
    decreases s.len(),
{
    if s.len() == 0 {
        0
    } else {
        digits_value(s.drop_last()) * 10 + digit_value(s.last())
    }
}

/// The shortest decimal text of `n`, without sign or leading zeros.
pub open spec fn decimal(n: nat) -> Seq<char>
    decreases n,
{
    if n < 10 {
        seq![digit_char(n)]
    } else {
        decimal(n / 10).push(digit_char(n % 10))
    }
}

/// What `str::parse` gives for an unsigned integer type whose largest value
/// is `max`: an optional `+`, then one or more ASCII digits whose value does
/// not exceed `max`.
pub open spec fn parse_unsigned(s: Seq<char>, max: nat) -> Option<nat> {
    let body = if s.len() > 0 && s[0] == '+' { s.drop_first() } else { s };
    if body.len() > 0 && all_digits(body) && digits_value(body) <= max {
        Some(digits_value(body))
    } else {
        None
    }
}

proof fn lemma_digits_value_take(s: Seq<char>, i: int)
    requires
        0 <= i < s.len(),
    ensures
        digits_value(s.take(i + 1)) == digits_value(s.take(i)) * 10 + digit_value(s[i]),
{
    assert(s.take(i + 1).drop_last() =~= s.take(i));
}

proof fn lemma_digits_value_grows(s: Seq<char>, i: int)
    requires
        0 <= i <= s.len(),
    ensures
        digits_value(s.take(i)) <= digits_value(s),
    decreases s.len() - i,
{
    if i < s.len() {
        lemma_digits_value_take(s, i);
        lemma_digits_value_grows(s, i + 1);
    } else {
        assert(s.take(i) =~= s);
    }
}

pub proof fn lemma_decimal_digits(n: nat)
    ensures
        decimal(n).len() > 0,
        all_digits(decimal(n)),
        digits_value(decimal(n)) == n,
        decimal(n)[0] != '+',
    decreases n,
{
    if n < 10 {
        assert(decimal(n).drop_last() =~= Seq::<char>::empty());
        assert(digit_value(digit_char(n)) == n);
        assert(digits_value(Seq::<char>::empty()) == 0);
        assert(digits_value(decimal(n)) == digits_value(decimal(n).drop_last()) * 10 + digit_value(decimal(n).last()));
    } else {
        assert(digit_value(digit_char(n % 10)) == n % 10);
        lemma_decimal_digits(n / 10);
        let d = decimal(n / 10);
        assert(decimal(n).drop_last() =~= d);
        assert(decimal(n)[0] == d[0]);
        assert(decimal(n).last() == digit_char(n % 10));
        assert(digits_value(decimal(n)) == digits_value(d) * 10 + digit_value(digit_char(n % 10)));
        assert(digits_value(decimal(n)) == n);
    }
}

/// Reading back the decimal text of a number gives that number, for every
/// number that fits the type.
pub proof fn lemma_parse_decimal(n: nat, max: nat)
    requires
        n <= max,
    ensures
        parse_unsigned(decimal(n), max) == Some(n),
{
    lemma_decimal_digits(n);
}

/// The text of one digit.
fn digit_str(d: u64) -> (s: &'static str)
    requires
        d < 10,
    ensures
        s@ == seq![digit_char(d as nat)],
{
    proof {
        reveal_strlit("0");
        reveal_strlit("1");
        reveal_strlit("2");
        reveal_strlit("3");
        reveal_strlit("4");
        reveal_strlit("5");
        reveal_strlit("6");
        reveal_strlit("7");
        reveal_strlit("8");
        reveal_strlit("9");
    }
    match d {
        0 => "0",
        1 => "1",
        2 => "2",
        3 => "3",
        4 => "4",
        5 => "5",
        6 => "6",
        7 => "7",
        8 => "8",
        _ => "9",
    }
}

/// The decimal text of `n`, as `n.to_string()` writes it.
pub fn format_u64(n: u64) -> (s: String)
    ensures
        s@ == decimal(n as nat),
    decreases n,
{
    if n < 10 {
        String::from_str(digit_str(n))
    } else {
        let mut s = format_u64(n / 10);
        s.append(digit_str(n % 10));
        s
    }
}

/// Reads `s` as an unsigned integer no larger than `max`, as `str::parse`
/// does for the unsigned type whose largest value is `max`.
pub fn parse_unsigned_up_to(s: &str, max: u64) -> (r: Option<u64>)
    ensures
        match r {
            Some(v) => parse_unsigned(s@, max as nat) == Some(v as nat),
            None => parse_unsigned(s@, max as nat) is None,
        },
{
    let ghost full = s@;
    let ghost body = if full.len() > 0 && full[0] == '+' { full.drop_first() } else { full };
    let mut value: u64 = 0;
    let mut start = true;
    let mut seen_digit = false;
    let mut overflow = false;
    let mut bad = false;
    let ghost mut count: int = 0;
    let ghost mut skipped: int = 0;
    for c in it: s.chars()
        invariant
            it.seq() == full,
            full == s@,
            body == (if full.len() > 0 && full[0] == '+' { full.drop_first() } else { full }),
            start <==> it.index() == 0,
            skipped == (if it.index() > 0 && full[0] == '+' { 1int } else { 0int }),
            !start ==> count + skipped == it.index(),
            start ==> count == 0,
            seen_digit <==> count > 0,
            0 <= count <= body.len(),
            !bad ==> all_digits(body.take(count)),
            bad ==> !all_digits(body),
            !bad && !overflow ==> value as nat == digits_value(body.take(count)),
            !bad && overflow ==> digits_value(body) > max,
            !overflow ==> value <= max,
    {
        if start && c == '+' {
            start = false;
            proof {
                skipped = 1;
            }
        } else {
            proof {
                if start {
                    skipped = 0;
                }
            }
            start = false;
            let ghost i = count;
            assert(body[i] == c);
            if !bad && !overflow {
                if '0' <= c && c <= '9' {
                    let d = (c as u32 - 48) as u64;
                    proof {
                        lemma_digits_value_take(body, i);
                        assert(body.take(i + 1) =~= body.take(i).push(c));
                    }
                    if d > max || value > (max - d) / 10 {
                        overflow = true;
                        proof {
                            if d <= max {
                                assert(value * 10 + d > max) by (nonlinear_arith)
                                    requires
                                        value > (max - d) / 10,
                                        d <= max,
                                ;
                            }
                            lemma_digits_value_grows(body, i + 1);
                        }
                    } else {
                        proof {
                            assert(value * 10 + d <= max) by (nonlinear_arith)
                                requires
                                    value <= (max - d) / 10,
                                    d <= max,
                            ;
                        }
                        value = value * 10 + d;
                    }
                } else {
                    bad = true;
                }
            } else if !bad {
                if !('0' <= c && c <= '9') {
                    bad = true;
                } else {
                    assert(body.take(i + 1) =~= body.take(i).push(c));
                }
            }
            seen_digit = true;
            proof {
                count = count + 1;
            }
        }
    }
    if start || !seen_digit || bad || overflow {
        None
    } else {
        assert(body.take(count) =~= body);
        Some(value)
    }
}

} // verus!
