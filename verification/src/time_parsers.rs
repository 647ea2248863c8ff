//! Time parsers for the syntaxes a user can seek with: `00s`, `00m`, `00h`
//! (and a bare `00` for seconds), `00:00` and `00:00:00`.
//!
//! Each parser takes the whole text and answers the time in milliseconds.

use vstd::prelude::*;

verus! {

/// Whether `c` is an ASCII decimal digit.
pub open spec fn is_digit(c: char) -> bool {
    '0' <= c && c <= '9'
}

/// Whether every character of `s` is an ASCII decimal digit.
pub open spec fn all_digits(s: Seq<char>) -> bool {
    forall|i: int| 0 <= i < s.len() ==> is_digit(#[trigger] s[i])
}

/// The value of a run of decimal digits.
pub open spec fn digits_value(s: Seq<char>) -> nat
    decreases s.len(),
{
    if s.len() == 0 {
        0
    } else {
        digits_value(s.drop_last()) * 10 + ((s.last() as u32) - ('0' as u32)) as nat
    }
}

/// Whether `s` is one to three decimal digits.
pub open spec fn short_number(s: Seq<char>) -> bool {
    1 <= s.len() <= 3 && all_digits(s)
}

/// Whether `s` is a two-digit number from `00` to `59`.
pub open spec fn sexagesimal(s: Seq<char>) -> bool {
    s.len() == 2 && '0' <= s[0] && s[0] <= '5' && is_digit(s[1])
}

/// The milliseconds that a unit suffix stands for: none, `s` or `S` for seconds,
/// `m` or `M` for minutes, `h` or `H` for hours; zero for any other character.
pub open spec fn suffix_unit(c: char) -> nat {
    if c == 's' || c == 'S' {
        1000
    } else if c == 'm' || c == 'M' {
        60_000
    } else if c == 'h' || c == 'H' {
        3_600_000
    } else {
        0
    }
}

/// The time that a text in the `00s`, `00m` or `00h` syntax stands for: one to
/// three digits, then an optional unit, which is seconds when left out.
pub open spec fn suffix_time(s: Seq<char>) -> Option<u32> {
    if s.len() == 0 {
        None
    } else if is_digit(s.last()) {
        if short_number(s) {
            Some((digits_value(s) * 1000) as u32)
        } else {
            None
        }
    } else if suffix_unit(s.last()) > 0 && short_number(s.drop_last()) {
        Some((digits_value(s.drop_last()) * suffix_unit(s.last())) as u32)
    } else {
        None
    }
}

/// The time that a text in the `00:00` (minutes and seconds) or `00:00:00` (hours,
/// minutes and seconds) syntax stands for. The first field has one to three digits,
/// the others two, from `00` to `59`.
pub open spec fn semicolon_time(s: Seq<char>) -> Option<u32> {
    let n = s.len() as int;
    if n < 3 || s[n - 3] != ':' || !sexagesimal(s.subrange(n - 2, n)) {
        None
    } else {
        let seconds = digits_value(s.subrange(n - 2, n));
        let head = s.take(n - 3);
        let h = head.len() as int;
        if short_number(head) {
            Some((digits_value(head) * 60_000 + seconds * 1000) as u32)
        } else if h >= 4 && head[h - 3] == ':' && sexagesimal(head.subrange(h - 2, h))
            && short_number(head.take(h - 3)) {
            Some(
                (digits_value(head.take(h - 3)) * 3_600_000 + digits_value(head.subrange(h - 2, h)) * 60_000
                    + seconds * 1000) as u32,
            )
        } else {
            None
        }
    }
}

/// A number of at most three digits is below a thousand.
proof fn lemma_short_number_bound(s: Seq<char>)
    requires
        s.len() <= 3,
        all_digits(s),
    ensures
        digits_value(s) < 1000,
        s.len() <= 2 ==> digits_value(s) < 100,
        s.len() <= 1 ==> digits_value(s) < 10,
    decreases s.len(),
{
    if s.len() > 0 {
        assert(all_digits(s.drop_last())) by {
            assert forall|i: int| 0 <= i < s.drop_last().len() implies is_digit(#[trigger] s.drop_last()[i]) by {
                assert(s.drop_last()[i] == s[i]);
            }
        }
        lemma_short_number_bound(s.drop_last());
        assert(is_digit(s[s.len() - 1]));
    }
}

/// The value of the digits of `data` from `from` up to `to`, if they all are digits.
fn digit_run(data: &str, from: usize, to: usize) -> (r: Option<u32>)
    requires
        from <= to <= data@.len(),
        to - from <= 3,
    ensures
        r is Some <==> all_digits(data@.subrange(from as int, to as int)),
        r matches Some(v) ==> v == digits_value(data@.subrange(from as int, to as int)) && v < 1000,
{
    let mut value: u32 = 0;
    let mut k: usize = from;
    while k < to
        invariant
            from <= k <= to <= data@.len(),
            to - from <= 3,
            all_digits(data@.subrange(from as int, k as int)),
            value == digits_value(data@.subrange(from as int, k as int)),
            value < 1000,
            k - from <= 2 ==> value < 100,
            k - from <= 1 ==> value < 10,
        decreases to - k,
    {
        let c = data.get_char(k);
        let ghost prefix = data@.subrange(from as int, k as int);
        let ghost next = data@.subrange(from as int, k + 1);
        assert(next.drop_last() =~= prefix);
        if !('0' <= c && c <= '9') {
            proof {
                assert(!all_digits(data@.subrange(from as int, to as int))) by {
                    assert(data@.subrange(from as int, to as int)[k - from] == c);
                }
            }
            return None;
        }
        value = value * 10 + ((c as u32) - ('0' as u32));
        proof {
            assert(all_digits(next)) by {
                assert forall|i: int| 0 <= i < next.len() implies is_digit(#[trigger] next[i]) by {
                    if i < prefix.len() {
                        assert(next[i] == prefix[i]);
                    }
                }
            }
            lemma_short_number_bound(next);
        }
        k = k + 1;
    }
    Some(value)
}

/// A bare number of one to three digits is read as seconds, and stands for the same
/// time as that number followed by `s` or `S`; followed by `m` or `h` it stands for
/// as many minutes or hours.
pub proof fn lemma_bare_number_is_seconds(s: Seq<char>)
    requires
        short_number(s),
    ensures
        suffix_time(s) == Some((digits_value(s) * 1000) as u32),
        suffix_time(s.push('s')) == suffix_time(s),
        suffix_time(s.push('S')) == suffix_time(s),
        suffix_time(s.push('m')) == Some((digits_value(s) * 60_000) as u32),
        suffix_time(s.push('h')) == Some((digits_value(s) * 3_600_000) as u32),
        digits_value(s) * 3_600_000 <= u32::MAX,
{
    lemma_short_number_bound(s);
    assert(s.push('s').drop_last() =~= s);
    assert(s.push('S').drop_last() =~= s);
    assert(s.push('m').drop_last() =~= s);
    assert(s.push('h').drop_last() =~= s);
    assert(s.len() > 0 && is_digit(s.last()));
}

/// Parses the `00s`, `00m`, and `00h` syntaxes into milliseconds.
pub fn _suffix_syntax(data: &str) -> (r: Option<u32>)
    ensures
        r == suffix_time(data@),
        short_number(data@) ==> r == Some((digits_value(data@) * 1000) as u32),
{
    let n = data.unicode_len();
    if n == 0 {
        return None;
    }
    let last = data.get_char(n - 1);
    proof {
        assert(data@.last() == last);
        assert(data@.subrange(0, n as int) =~= data@);
        assert(data@.subrange(0, n - 1) =~= data@.drop_last());
    }
    if '0' <= last && last <= '9' {
        if n > 3 {
            return None;
        }
        match digit_run(data, 0, n) {
            Some(v) => Some(v * 1000),
            None => None,
        }
    } else {
        let unit: u32 = if last == 's' || last == 'S' {
            1000
        } else if last == 'm' || last == 'M' {
            60_000
        } else if last == 'h' || last == 'H' {
            3_600_000
        } else {
            0
        };
        if unit == 0 || n - 1 < 1 || n - 1 > 3 {
            return None;
        }
        match digit_run(data, 0, n - 1) {
            Some(v) => {
                assert(v * unit <= 999 * 3_600_000) by (nonlinear_arith)
                    requires v < 1000, unit <= 3_600_000;
                Some(v * unit)
            },
            None => None,
        }
    }
}

/// Whether the two characters of `data` at `at` form a number from `00` to `59`.
fn sexagesimal_at(data: &str, at: usize, end: usize) -> (r: Option<u32>)
    requires
        end == at + 2,
        end <= data@.len(),
    ensures
        r is Some <==> sexagesimal(data@.subrange(at as int, end as int)),
        r matches Some(v) ==> v == digits_value(data@.subrange(at as int, end as int)) && v < 60,
{
    let tens = data.get_char(at);
    let ghost two = data@.subrange(at as int, at + 2);
    assert(two[0] == tens);
    if !('0' <= tens && tens <= '5') {
        return None;
    }
    match digit_run(data, at, end) {
        Some(v) => {
            proof {
                let one = two.drop_last();
                assert(one.drop_last() =~= Seq::<char>::empty());
                reveal_with_fuel(digits_value, 2);
                assert(digits_value(one) == ((tens as u32) - ('0' as u32)) as nat);
                assert(is_digit(two[1]));
            }
            Some(v)
        },
        None => {
            proof {
                assert(is_digit(two[0]));
                if is_digit(two[1]) {
                    assert(all_digits(two));
                }
            }
            None
        },
    }
}

/// Parses the `00:00:00` and `00:00` syntaxes into milliseconds.
pub fn _semicolon_syntax(data: &str) -> (r: Option<u32>)
    ensures
        r == semicolon_time(data@),
{
    let n = data.unicode_len();
    if n < 3 {
        return None;
    }
    if data.get_char(n - 3) != ':' {
        return None;
    }
    let seconds = match sexagesimal_at(data, n - 2, n) {
        Some(v) => v,
        None => return None,
    };
    let ghost head = data@.take(n - 3);
    let h = n - 3;
    if 1 <= h && h <= 3 {
        match digit_run(data, 0, h) {
            Some(minutes) => {
                proof {
                    assert(data@.subrange(0, h as int) =~= head);
                }
                assert(minutes * 60_000 <= 999 * 60_000) by (nonlinear_arith)
                    requires minutes < 1000;
                assert(seconds * 1000 <= 59 * 1000) by (nonlinear_arith)
                    requires seconds < 60;
                return Some(minutes * 60_000 + seconds * 1000);
            },
            None => {
                proof {
                    assert(data@.subrange(0, h as int) =~= head);
                }
            },
        }
    }
    proof {
        assert(data@.subrange(0, h as int) =~= head);
    }
    if h < 4 || h > 6 {
        proof {
            if h > 6 {
                assert(!short_number(head.take(h - 3)));
            }
        }
        return None;
    }
    if data.get_char(h - 3) != ':' {
        proof {
            assert(head[h - 3] == data@[h - 3]);
        }
        return None;
    }
    proof {
        assert(head[h - 3] == data@[h - 3]);
        assert(head.subrange(h - 2, h as int) =~= data@.subrange(h - 2, h as int));
        assert(head.take(h - 3) =~= data@.subrange(0, h - 3));
    }
    let minutes = match sexagesimal_at(data, h - 2, h) {
        Some(v) => v,
        None => return None,
    };
    if h - 3 < 1 {
        return None;
    }
    match digit_run(data, 0, h - 3) {
        Some(hours) => {
            assert(hours * 3_600_000 <= 999 * 3_600_000) by (nonlinear_arith)
                requires hours < 1000;
            assert(minutes * 60_000 <= 59 * 60_000) by (nonlinear_arith)
                requires minutes < 60;
            assert(seconds * 1000 <= 59 * 1000) by (nonlinear_arith)
                requires seconds < 60;
            Some(hours * 3_600_000 + minutes * 60_000 + seconds * 1000)
        },
        None => None,
    }
}

} // verus!
