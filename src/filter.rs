//! Limits on the size of a group, which decide the groups shown.

use vstd::prelude::*;
use vstd::string::*;

use crate::text::ascii_lower_char;

verus! {

/// A limit on a byte count.
#[derive(Debug, Copy, Clone, PartialEq, Eq, Structural)]
pub enum SizeFilter {
    /// The size is at least this many bytes.
    AtLeast(u64),
    /// The size is at most this many bytes.
    AtMost(u64),
    /// The size is exactly this many bytes.
    Exactly(u64),
}

/// Whether a size meets a limit.
pub open spec fn within(f: SizeFilter, size: u64) -> bool {
    match f {
        SizeFilter::AtLeast(n) => size >= n,
        SizeFilter::AtMost(n) => size <= n,
        SizeFilter::Exactly(n) => size == n,
    }
}

impl SizeFilter {
    /// Whether `size` meets this limit.
    pub fn is_within(&self, size: u64) -> (r: bool)
        ensures
            r == within(*self, size),
    {
        match self {
            SizeFilter::AtLeast(n) => size >= *n,
            SizeFilter::AtMost(n) => size <= *n,
            SizeFilter::Exactly(n) => size == *n,
        }
    }
}

/// Whether a size meets every limit; with no limits, every size does.
pub open spec fn within_all(fs: Seq<SizeFilter>, size: u64) -> bool {
    forall|i: int| 0 <= i < fs.len() ==> within(#[trigger] fs[i], size)
}

/// Whether `size` meets every limit in `filters`.
pub fn is_within_all(filters: &Vec<SizeFilter>, size: u64) -> (r: bool)
    ensures
        r == within_all(filters@, size),
{
    let mut i: usize = 0;
    while i < filters.len()
        invariant
            i <= filters@.len(),
            forall|j: int| 0 <= j < i ==> within(#[trigger] filters@[j], size),
        decreases filters@.len() - i,
    {
        if !filters[i].is_within(size) {
            return false;
        }
        i = i + 1;
    }
    true
}

/// A group row as plain values: its key and its size.
pub open spec fn row_view(r: (String, u64)) -> (Seq<char>, u64) {
    (r.0@, r.1)
}

/// The rows whose size meets every limit, in their order.
pub open spec fn rows_within(rows: Seq<(Seq<char>, u64)>, fs: Seq<SizeFilter>) -> Seq<
    (Seq<char>, u64),
>
    decreases rows.len(),
{
    if rows.len() == 0 {
        Seq::empty()
    } else {
        let kept = rows_within(rows.drop_last(), fs);
        if within_all(fs, rows.last().1) {
            kept.push(rows.last())
        } else {
            kept
        }
    }
}

/// The group rows to show: those whose size meets every limit, in their
/// order. The total of a run is not a row and is never filtered.
pub fn shown_groups(rows: &Vec<(String, u64)>, filters: &Vec<SizeFilter>) -> (r: Vec<
    (String, u64),
>)
    ensures
        r@.map_values(|x: (String, u64)| row_view(x)) == rows_within(
            rows@.map_values(|x: (String, u64)| row_view(x)),
            filters@,
        ),
{
    let ghost all = rows@.map_values(|x: (String, u64)| row_view(x));
    let mut out: Vec<(String, u64)> = Vec::new();
    let mut i: usize = 0;
    while i < rows.len()
        invariant
            i <= rows@.len(),
            all == rows@.map_values(|x: (String, u64)| row_view(x)),
            out@.map_values(|x: (String, u64)| row_view(x)) == rows_within(
                all.subrange(0, i as int),
                filters@,
            ),
        decreases rows@.len() - i,
    {
        let ghost before = out@;
        assert(all.subrange(0, i + 1).drop_last() =~= all.subrange(0, i as int));
        assert(all.subrange(0, i + 1).last() == row_view(rows@[i as int]));
        let size = rows[i].1;
        if is_within_all(filters, size) {
            let key = rows[i].0.clone();
            out.push((key, size));
            assert(out@.map_values(|x: (String, u64)| row_view(x)) =~= before.map_values(
                |x: (String, u64)| row_view(x),
            ).push(row_view(rows@[i as int])));
        }
        i = i + 1;
    }
    assert(all.subrange(0, rows@.len() as int) =~= all);
    out
}

/// Whether a character is an ASCII digit.
pub open spec fn is_digit(c: char) -> bool {
    '0' <= c && c <= '9'
}

/// The value of an ASCII digit.
pub open spec fn digit_value(c: char) -> nat {
    (c as u32 - '0' as u32) as nat
}

/// The number written by a string of decimal digits.
pub open spec fn digits_value(s: Seq<char>) -> nat
    decreases s.len(),
{
    if s.len() == 0 {
        0
    } else {
        digits_value(s.drop_last()) * 10 + digit_value(s.last())
    }
}

/// The number of ASCII digits at the start of a string.
pub open spec fn leading_digits(s: Seq<char>) -> nat
    decreases s.len(),
{
    if s.len() > 0 && is_digit(s[0]) {
        1 + leading_digits(s.drop_first())
    } else {
        0
    }
}

/// The number of bytes in one unit: `b` (or none), the decimal `k`, `m`, `g`,
/// `t` and the binary `ki`, `mi`, `gi`, `ti`, in any ASCII case.
pub open spec fn unit_factor(u: Seq<char>) -> Option<u64> {
    let l = u.map_values(|c: char| ascii_lower_char(c));
    if l.len() == 0 {
        Some(1)
    } else if l.len() == 1 {
        match l[0] {
            'b' => Some(1),
            'k' => Some(1_000),
            'm' => Some(1_000_000),
            'g' => Some(1_000_000_000),
            't' => Some(1_000_000_000_000),
            _ => None,
        }
    } else if l.len() == 2 && l[1] == 'i' {
        match l[0] {
            'k' => Some(1024),
            'm' => Some(1_048_576),
            'g' => Some(1_073_741_824),
            't' => Some(1_099_511_627_776),
            _ => None,
        }
    } else {
        None
    }
}

/// The limit that a string `<+-><NUM><UNIT>` writes: `+` for at least, `-`
/// for at most, no sign for exactly; `NUM` one or more decimal digits; `UNIT`
/// as `unit_factor` reads it. None where the string is not of that form or the
/// size does not fit in `u64`.
pub open spec fn filter_named(s: Seq<char>) -> Option<SizeFilter> {
    let start: int = if s.len() > 0 && (s[0] == '+' || s[0] == '-') { 1 } else { 0 };
    let rest = s.subrange(start, s.len() as int);
    let n = leading_digits(rest) as int;
    let num = digits_value(rest.subrange(0, n));
    match unit_factor(rest.subrange(n, rest.len() as int)) {
        Some(f) => if n > 0 && num * f <= u64::MAX {
            let v = (num * f) as u64;
            Some(
                if start == 1 && s[0] == '+' {
                    SizeFilter::AtLeast(v)
                } else if start == 1 {
                    SizeFilter::AtMost(v)
                } else {
                    SizeFilter::Exactly(v)
                },
            )
        } else {
            None
        },
        None => None,
    }
}

/// The message for a string that writes no size limit.
pub open spec fn bad_filter_message() -> Seq<char> {
    "Invalid size filter; expected <+-><NUM><UNIT>, e.g. +500k"@
}

proof fn lemma_leading_digits(s: Seq<char>, i: int)
    requires
        0 <= i <= s.len(),
        forall|j: int| 0 <= j < i ==> is_digit(#[trigger] s[j]),
        i == s.len() || !is_digit(s[i]),
    ensures
        leading_digits(s) == i,
    decreases i,
{
    if i > 0 {
        let t = s.drop_first();
        assert forall|j: int| 0 <= j < i - 1 implies is_digit(#[trigger] t[j]) by {
            assert(t[j] == s[j + 1]);
        }
        lemma_leading_digits(t, i - 1);
    }
}

fn lower_char(c: char) -> (r: char)
    ensures
        r == ascii_lower_char(c),
{
    if 'A' <= c && c <= 'Z' {
        match c {
            'A' => 'a', 'B' => 'b', 'C' => 'c', 'D' => 'd', 'E' => 'e', 'F' => 'f',
            'G' => 'g', 'H' => 'h', 'I' => 'i', 'J' => 'j', 'K' => 'k', 'L' => 'l',
            'M' => 'm', 'N' => 'n', 'O' => 'o', 'P' => 'p', 'Q' => 'q', 'R' => 'r',
            'S' => 's', 'T' => 't', 'U' => 'u', 'V' => 'v', 'W' => 'w', 'X' => 'x',
            'Y' => 'y', _ => 'z',
        }
    } else {
        c
    }
}

fn unit_of(s: &str, from: usize) -> (r: Option<u64>)
    requires
        from <= s@.len(),
    ensures
        r == unit_factor(s@.subrange(from as int, s@.len() as int)),
{
    let n = s.unicode_len();
    let ghost u = s@.subrange(from as int, s@.len() as int);
    let ghost l = u.map_values(|c: char| ascii_lower_char(c));
    if n == from {
        assert(l.len() == 0);
        return Some(1);
    }
    let a = lower_char(s.get_char(from));
    if n - from == 1 {
        assert(l[0] == a);
        return if a == 'b' {
            Some(1)
        } else if a == 'k' {
            Some(1_000)
        } else if a == 'm' {
            Some(1_000_000)
        } else if a == 'g' {
            Some(1_000_000_000)
        } else if a == 't' {
            Some(1_000_000_000_000)
        } else {
            None
        };
    }
    if n - from > 2 {
        assert(l.len() > 2);
        return None;
    }
    let b = lower_char(s.get_char(from + 1));
    assert(l[0] == a && l[1] == b);
    if b != 'i' {
        return None;
    }
    if a == 'k' {
        Some(1024)
    } else if a == 'm' {
        Some(1_048_576)
    } else if a == 'g' {
        Some(1_073_741_824)
    } else if a == 't' {
        Some(1_099_511_627_776)
    } else {
        None
    }
}

impl SizeFilter {
    /// Reads a limit written as `<+-><NUM><UNIT>` (see `filter_named`).
    pub fn from_string(s: &str) -> (r: Result<SizeFilter, String>)
        ensures
            match filter_named(s@) {
                Some(f) => r == Ok::<SizeFilter, String>(f),
                None => r is Err && r->Err_0@ == bad_filter_message(),
            },
    {
        let n = s.unicode_len();
        let mut start: usize = 0;
        let mut sign: char = ' ';
        if n > 0 {
            let c = s.get_char(0);
            if c == '+' || c == '-' {
                start = 1;
                sign = c;
            }
        }
        let ghost rest = s@.subrange(start as int, n as int);
        let mut i: usize = start;
        let mut num: u64 = 0;
        let mut big = false;
        let mut stop = false;
        while i < n && !stop
            invariant
                stop ==> i < n && !is_digit(rest[i - start]),
                start <= i <= n,
                n == s@.len(),
                rest == s@.subrange(start as int, n as int),
                forall|j: int| 0 <= j < i - start ==> is_digit(#[trigger] rest[j]),
                !big ==> num == digits_value(rest.subrange(0, i - start)),
                big ==> digits_value(rest.subrange(0, i - start)) > u64::MAX,
            decreases n - i + if stop { 0int } else { 1int },
        {
            let c = s.get_char(i);
            assert(rest[i - start] == c);
            if !('0' <= c && c <= '9') {
                stop = true;
                continue;
            }
            let d = (c as u32 - '0' as u32) as u64;
            assert(rest.subrange(0, i - start + 1).drop_last() =~= rest.subrange(0, i - start));
            assert(rest.subrange(0, i - start + 1).last() == c);
            if !big {
                if num > (u64::MAX - d) / 10 {
                    big = true;
                } else {
                    num = num * 10 + d;
                }
            }
            i = i + 1;
        }
        proof {
            lemma_leading_digits(rest, i - start);
        }
        let unit = unit_of(s, i);
        assert(rest.subrange(i - start, rest.len() as int) =~= s@.subrange(i as int, n as int));
        let bad = "Invalid size filter; expected <+-><NUM><UNIT>, e.g. +500k";
        match unit {
            None => Err(bad.to_string()),
            Some(f) => {
                if i == start || big || (f > 0 && num > u64::MAX / f) {
                    proof {
                        if !big && i != start && f > 0 && num > u64::MAX / f {
                            assert(num * f > u64::MAX) by (nonlinear_arith)
                                requires
                                    f > 0,
                                    num > u64::MAX / f,
                            ;
                        }
                        if big {
                            assert(f >= 1);
                            assert(digits_value(rest.subrange(0, i - start)) * f > u64::MAX)
                                by (nonlinear_arith)
                                requires
                                    f >= 1,
                                    digits_value(rest.subrange(0, i - start)) > u64::MAX,
                            ;
                        }
                    }
                    Err(bad.to_string())
                } else {
                    proof {
                        assert(num * f <= u64::MAX) by (nonlinear_arith)
                            requires
                                f > 0,
                                num <= u64::MAX / f,
                        ;
                    }
                    let v = num * f;
                    if sign == '+' {
                        Ok(SizeFilter::AtLeast(v))
                    } else if sign == '-' {
                        Ok(SizeFilter::AtMost(v))
                    } else {
                        Ok(SizeFilter::Exactly(v))
                    }
                }
            },
        }
    }
}

} // verus!
