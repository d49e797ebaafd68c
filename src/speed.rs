use vstd::prelude::*;

verus! {

/// The link speed, in Mbps, reported when the host gives none that can be read.
pub const DEFAULT_SPEED: i32 = 10000;

pub open spec fn is_digit(c: char) -> bool {
    '0' <= c && c <= '9'
}

pub open spec fn all_digits(s: Seq<char>) -> bool {
    forall|i: int| 0 <= i < s.len() ==> is_digit(#[trigger] s[i])
}

/// The value of a string of decimal digits, most significant first.
pub open spec fn decimal_value(s: Seq<char>) -> int
    decreases s.len(),
{
    if s.len() == 0 {
        0
    } else {
        decimal_value(s.drop_last()) * 10 + (s.last() as int - '0' as int)
    }
}

/// How many leading characters of `s` are a sign.
pub open spec fn sign_len(s: Seq<char>) -> int {
    if s.len() > 0 && (s[0] == '-' || s[0] == '+') {
        1
    } else {
        0
    }
}

/// The 32-bit integer that `s` writes in decimal: an optional sign, then one or
/// more digits, and nothing else; `None` for any other text or a value out of range.
pub open spec fn parse_i32(s: Seq<char>) -> Option<int> {
    let digits = s.skip(sign_len(s));
    if digits.len() == 0 || !all_digits(digits) {
        None
    } else {
        let v = if s[0] == '-' {
            -decimal_value(digits)
        } else {
            decimal_value(digits)
        };
        if i32::MIN <= v <= i32::MAX {
            Some(v)
        } else {
            None
        }
    }
}

/// `t` without one line break at its end, if it has one.
pub open spec fn strip_newline(t: Seq<char>) -> Seq<char> {
    if t.len() > 0 && t.last() == '\n' {
        t.drop_last()
    } else {
        t
    }
}

/// The link speed that the text of the host's speed attribute gives, if it was read:
/// the integer it holds on its one line, or the default.
pub open spec fn speed_of(text: Option<Seq<char>>) -> int {
    match text {
        Some(t) => match parse_i32(strip_newline(t)) {
            Some(v) => v,
            None => DEFAULT_SPEED as int,
        },
        None => DEFAULT_SPEED as int,
    }
}

proof fn lemma_decimal_value_nonneg(s: Seq<char>)
    requires
        all_digits(s),
    ensures
        decimal_value(s) >= 0,
    decreases s.len(),
{
    if s.len() > 0 {
        assert(all_digits(s.drop_last()));
        lemma_decimal_value_nonneg(s.drop_last());
        assert(is_digit(s[s.len() - 1]));
    }
}

/// Reads `s` as a decimal 32-bit integer.
pub fn parse_decimal_i32(s: &str) -> (r: Option<i32>)
    ensures
        r matches Some(v) ==> parse_i32(s@) == Some(v as int),
        r is None ==> parse_i32(s@) is None,
{
    let n = s.unicode_len();
    if n == 0 {
        return None;
    }
    let first = s.get_char(0);
    let start: usize = if first == '-' || first == '+' { 1 } else { 0 };
    assert(start == sign_len(s@));
    if start >= n {
        assert(s@.skip(sign_len(s@)).len() == 0);
        return None;
    }
    let cap: u64 = 2147483649;
    let mut acc: u64 = 0;
    let mut i: usize = start;
    while i < n
        invariant
            start <= i <= n,
            n == s@.len(),
            start == sign_len(s@),
            cap == 2147483649,
            all_digits(s@.subrange(start as int, i as int)),
            acc == (if decimal_value(s@.subrange(start as int, i as int)) < cap {
                decimal_value(s@.subrange(start as int, i as int))
            } else {
                cap as int
            }),
        decreases n - i,
    {
        let c = s.get_char(i);
        if !('0' <= c && c <= '9') {
            assert(s@.skip(sign_len(s@))[i - start] == c);
            return None;
        }
        let ghost prefix = s@.subrange(start as int, i as int);
        let ghost next = s@.subrange(start as int, i as int + 1);
        assert(next.drop_last() =~= prefix);
        assert(next.last() == c);
        assert(all_digits(next));
        proof {
            lemma_decimal_value_nonneg(prefix);
        }
        let d: u64 = (c as u32 - '0' as u32) as u64;
        if acc >= cap {
            assert(decimal_value(prefix) * 10 >= decimal_value(prefix)) by (nonlinear_arith)
                requires
                    decimal_value(prefix) >= 0,
            ;
        } else {
            let v = acc * 10 + d;
            acc = if v > cap { cap } else { v };
        }
        i += 1;
    }
    assert(s@.subrange(start as int, n as int) =~= s@.skip(sign_len(s@)));
    if first == '-' {
        if acc <= 2147483648 {
            Some((0 - acc as i64) as i32)
        } else {
            None
        }
    } else {
        if acc <= 2147483647 {
            Some(acc as i32)
        } else {
            None
        }
    }
}

/// The link speed given by the text of the host's speed attribute, or the default
/// when it could not be read or does not hold a decimal integer on its one line.
pub fn get_net_if_speed(text: Option<&str>) -> (r: i32)
    ensures
        r as int == speed_of(
            match text {
                Some(t) => Some(t@),
                None => None,
            },
        ),
{
    match text {
        Some(t) => {
            let n = t.unicode_len();
            let line = if n > 0 && t.get_char(n - 1) == '\n' {
                t.substring_char(0, n - 1)
            } else {
                t
            };
            assert(line@ == strip_newline(t@)) by {
                if n > 0 && t@.last() == '\n' {
                    assert(t@.subrange(0, n - 1) =~= t@.drop_last());
                }
            }
            match parse_decimal_i32(line) {
                Some(v) => v,
                None => DEFAULT_SPEED,
            }
        },
        None => DEFAULT_SPEED,
    }
}

/// The path of the sysfs attribute that holds the link speed of interface `name`.
pub fn speed_path(name: &String) -> (r: String)
    ensures
        r@ == "/sys/class/net/"@ + name@ + "/speed"@,
{
    let mut p = String::from_str("/sys/class/net/");
    p.append(name.as_str());
    p.append("/speed");
    p
}

} // verus!
