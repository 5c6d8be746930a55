//! Decimal numbers as text.

use vstd::prelude::*;

verus! {

/// The value of a decimal digit.
pub open spec fn digit(c: char) -> Option<nat> {
    if '0' <= c <= '9' {
        Some((c as int - '0' as int) as nat)
    } else {
        None
    }
}

/// The number that a row of digits stands for; an empty row stands for 0.
pub open spec fn digits_value(s: Seq<char>) -> Option<nat>
    decreases s.len(),
{
    if s.len() == 0 {
        Some(0)
    } else {
        match (digits_value(s.drop_last()), digit(s.last())) {
            (Some(n), Some(d)) => Some(n * 10 + d),
            _ => None,
        }
    }
}

/// The number that a text stands for: digits after an optional sign.
pub open spec fn text_value(s: Seq<char>) -> Option<int> {
    if s.len() == 0 {
        None
    } else if s[0] == '-' || s[0] == '+' {
        let rest = s.drop_first();
        if rest.len() == 0 {
            None
        } else {
            match digits_value(rest) {
                Some(n) => Some(
                    if s[0] == '-' {
                        -(n as int)
                    } else {
                        n as int
                    },
                ),
                None => None,
            }
        }
    } else {
        match digits_value(s) {
            Some(n) => Some(n as int),
            None => None,
        }
    }
}

/// The digits of a number, most significant first.
pub open spec fn digits(n: nat) -> Seq<char>
    decreases n,
{
    if n < 10 {
        seq![(n + '0' as int) as char]
    } else {
        digits(n / 10).push((n % 10 + '0' as int) as char)
    }
}

/// A number in decimal.
pub open spec fn int_text(i: int) -> Seq<char> {
    if i < 0 {
        seq!['-'] + digits((-i) as nat)
    } else {
        digits(i as nat)
    }
}

proof fn lemma_digits_read_back(n: nat)
    ensures
        digits_value(digits(n)) == Some(n),
        digits(n).len() > 0,
        '0' <= digits(n)[0] <= '9',
    decreases n,
{
    if n < 10 {
        let s = digits(n);
        assert(s.drop_last() =~= seq![]);
        assert(digit(s.last()) == Some(n));
        assert(digits_value(s.drop_last()) == Some(0nat));
    } else {
        lemma_digits_read_back(n / 10);
        let s = digits(n);
        assert(s.drop_last() =~= digits(n / 10));
        assert(digit(s.last()) == Some(n % 10));
        assert(n / 10 * 10 + n % 10 == n);
    }
}

/// A number reads back from its decimal text.
pub proof fn law_decimal_reads_back(i: int)
    ensures
        text_value(int_text(i)) == Some(i),
{
    if i < 0 {
        lemma_digits_read_back((-i) as nat);
        assert(int_text(i).drop_first() =~= digits((-i) as nat));
    } else {
        lemma_digits_read_back(i as nat);
    }
}

/// A longer row of digits stands for no smaller number.
proof fn lemma_value_grows(s: Seq<char>, n: int)
    requires
        0 <= n <= s.len(),
        digits_value(s) is Some,
    ensures
        digits_value(s.take(n)) is Some,
        digits_value(s.take(n))->0 <= digits_value(s)->0,
    decreases s.len(),
{
    if n == s.len() {
        assert(s.take(n) =~= s);
    } else {
        lemma_value_grows(s.drop_last(), n);
        assert(s.drop_last().take(n) =~= s.take(n));
    }
}

fn digit_text(d: u64) -> (r: &'static str)
    requires
        d < 10,
    ensures
        r@ == seq![(d + '0' as int) as char],
{
    proof {
        reveal_strlit("0");
        reveal_strlit("1");
        reveal_strlit("2");
        reveal_strlit("3");
        reveal_strlit("4");
        reveal_strlit("5");
        reveal_strlit("6");
        reveal_strlit("7");
        reveal_strlit("8");
        reveal_strlit("9");
    }
    let r = if d == 0 {
        "0"
    } else if d == 1 {
        "1"
    } else if d == 2 {
        "2"
    } else if d == 3 {
        "3"
    } else if d == 4 {
        "4"
    } else if d == 5 {
        "5"
    } else if d == 6 {
        "6"
    } else if d == 7 {
        "7"
    } else if d == 8 {
        "8"
    } else {
        "9"
    };
    assert(r@ =~= seq![(d + '0' as int) as char]);
    r
}

/// The decimal digits of a number.
pub fn unsigned_text(n: u64) -> (r: String)
    ensures
        r@ == digits(n as nat),
    decreases n,
{
    if n < 10 {
        digit_text(n).to_owned()
    } else {
        let mut out = unsigned_text(n / 10);
        let d = digit_text(n % 10);
        out.append(d);
        assert(out@ =~= digits(n as nat));
        out
    }
}

/// A number in decimal.
pub fn signed_text(i: i64) -> (r: String)
    ensures
        r@ == int_text(i as int),
{
    if i < 0 {
        proof {
            reveal_strlit("-");
        }
        let n: u64 = if i == i64::MIN {
            0x8000_0000_0000_0000u64
        } else {
            (-i) as u64
        };
        let mut out = "-".to_owned();
        out.append(unsigned_text(n).as_str());
        assert(out@ =~= int_text(i as int));
        out
    } else {
        unsigned_text(i as u64)
    }
}

/// The 32-bit number that a text holds.
pub open spec fn read_i32(s: Seq<char>) -> Option<i32> {
    match text_value(s) {
        Some(v) => if i32::MIN <= v <= i32::MAX {
            Some(v as i32)
        } else {
            None
        },
        None => None,
    }
}

/// The number that a text stands for, if it is an `i32`: `str::parse::<i32>`.
pub fn parse_i32(s: &str) -> (r: Option<i32>)
    ensures
        r == read_i32(s@),
{
    let n: usize = s.unicode_len();
    if n == 0 {
        return None;
    }
    let first = s.get_char(0);
    let negative = first == '-';
    let start: usize = if negative || first == '+' {
        1
    } else {
        0
    };
    if start == n {
        assert(s@.drop_first() =~= seq![]);
        return None;
    }
    let ghost row = s@.skip(start as int);
    proof {
        if start == 1 {
            assert(row =~= s@.drop_first());
        } else {
            assert(row =~= s@);
        }
        assert(row.take(0) =~= seq![]);
    }
    let mut v: i64 = 0;
    let mut i: usize = start;
    while i < n
        invariant
            start <= i <= n,
            start <= 1,
            n == s@.len(),
            row == s@.skip(start as int),
            0 <= v <= 0x8000_0000,
            digits_value(row.take(i - start)) == Some(v as nat),
            text_value(s@) == (match digits_value(row) {
                Some(x) => Some(
                    if negative {
                        -(x as int)
                    } else {
                        x as int
                    },
                ),
                None => None,
            }),
        decreases n - i,
    {
        let c = s.get_char(i);
        proof {
            let k = i - start;
            assert(row.take(k + 1).drop_last() =~= row.take(k));
            assert(row.take(k + 1).last() == c);
            if digits_value(row) is Some {
                lemma_value_grows(row, k + 1);
            }
        }
        if c < '0' || c > '9' {
            return None;
        }
        let d: i64 = (c as u32 - '0' as u32) as i64;
        v = v * 10 + d;
        if v > 0x8000_0000 {
            return None;
        }
        i = i + 1;
    }
    assert(row.take(row.len() as int) =~= row);
    if negative {
        Some((-v) as i32)
    } else if v <= i32::MAX as i64 {
        Some(v as i32)
    } else {
        None
    }
}

} // verus!
