//! The run's settings as given on the command line, the parsing of a grouping
//! mode, and the rendering of byte counts.

use vstd::prelude::*;
use vstd::string::*;

pub use crate::groups::GroupBy;
use crate::filter::SizeFilter;
use crate::text::{ascii_lower, is_prefix, starts_with, to_ascii_lowercase};

verus! {

broadcast use vstd::string::group_string_axioms;

/// Computes disk-usage for the given entries and groups them by extension or
/// file types.
pub struct Cli {
    /// How to group the file sizes.
    pub group_by: GroupBy,
    /// Limits on the size of the groups shown; all of them must hold.
    pub size: Vec<SizeFilter>,
    /// How byte counts are rendered.
    pub size_format: FormatOption,
    /// Count apparent size instead of disk usage.
    pub apparent_size: bool,
    /// The number of threads that walk the trees.
    pub threads: usize,
    /// Report every filesystem error instead of a single warning.
    pub verbose: bool,
    /// The roots to walk.
    pub inputs: Vec<String>,
}

/// The message of a grouping mode that names none of the four.
pub open spec fn unknown_group_message() -> Seq<char> {
    "Group does is not one of [extension, type, filename, directory]"@
}

/// The grouping mode that a word names: the first of `extension`, `type`,
/// `filename` and `directory` of which the word, in ASCII lowercase, is a
/// prefix.
pub open spec fn group_by_named(s: Seq<char>) -> Option<GroupBy> {
    let l = ascii_lower(s);
    if is_prefix(l, "extension"@) {
        Some(GroupBy::Extension)
    } else if is_prefix(l, "type"@) {
        Some(GroupBy::Type)
    } else if is_prefix(l, "filename"@) {
        Some(GroupBy::FileName)
    } else if is_prefix(l, "directory"@) {
        Some(GroupBy::Directory)
    } else {
        None
    }
}

/// Reads a grouping mode from any prefix of its name, ignoring ASCII case.
pub fn parse_group_by(s: &str) -> (r: Result<GroupBy, String>)
    ensures
        match group_by_named(s@) {
            Some(g) => r == Ok::<GroupBy, String>(g),
            None => r is Err && r->Err_0@ == unknown_group_message(),
        },
{
    let l = to_ascii_lowercase(s);
    let l = l.as_str();
    if starts_with("extension", l) {
        Ok(GroupBy::Extension)
    } else if starts_with("type", l) {
        Ok(GroupBy::Type)
    } else if starts_with("filename", l) {
        Ok(GroupBy::FileName)
    } else if starts_with("directory", l) {
        Ok(GroupBy::Directory)
    } else {
        Err("Group does is not one of [extension, type, filename, directory]".to_string())
    }
}

/// How a byte count is rendered.
#[derive(Debug, Copy, Clone, PartialEq, Eq, Structural, PartialOrd, Ord)]
pub enum FormatOption {
    /// Base-ten units (kB, MB, ...).
    Decimal,
    /// Base-two units (KiB, MiB, ...).
    Binary,
    /// The raw number of bytes.
    Bytes,
    /// Decimal units on a terminal, raw bytes otherwise.
    Auto,
}

/// The decimal digits of a number, most significant first.
pub open spec fn decimal_digits(n: nat) -> Seq<char>
    decreases n,
{
    let d = n % 10;
    let c = if d == 0 { '0' } else if d == 1 { '1' } else if d == 2 { '2' } else if d == 3 {
        '3'
    } else if d == 4 { '4' } else if d == 5 { '5' } else if d == 6 { '6' } else if d == 7 {
        '7'
    } else if d == 8 { '8' } else { '9' };
    if n < 10 {
        seq![c]
    } else {
        decimal_digits(n / 10).push(c)
    }
}

/// A byte count with units, as `humansize::format_size` renders it with the
/// `BINARY` options (`base_two`) or the `DECIMAL` ones.
pub uninterp spec fn size_text(n: u64, base_two: bool) -> Seq<char>;

/// Relies on `humansize::format_size` with the `DECIMAL` options.
#[verifier::external_body]
fn format_decimal(n: u64) -> (r: String)
    ensures
        r@ == size_text(n, false),
{
    humansize::format_size(n, humansize::DECIMAL)
}

/// Relies on `humansize::format_size` with the `BINARY` options.
#[verifier::external_body]
fn format_binary(n: u64) -> (r: String)
    ensures
        r@ == size_text(n, true),
{
    humansize::format_size(n, humansize::BINARY)
}

/// The decimal digit `d`, as a string.
fn digit_string(d: u64) -> (r: String)
    requires
        d < 10,
    ensures
        r@ == decimal_digits(d as nat),
{
    proof {
        reveal_strlit("0");
        reveal_strlit("1");
        reveal_strlit("2");
        reveal_strlit("3");
        reveal_strlit("4");
        reveal_strlit("5");
        reveal_strlit("6");
        reveal_strlit("7");
        reveal_strlit("8");
        reveal_strlit("9");
    }
    let s = if d == 0 {
        "0"
    } else if d == 1 {
        "1"
    } else if d == 2 {
        "2"
    } else if d == 3 {
        "3"
    } else if d == 4 {
        "4"
    } else if d == 5 {
        "5"
    } else if d == 6 {
        "6"
    } else if d == 7 {
        "7"
    } else if d == 8 {
        "8"
    } else {
        "9"
    };
    let r = s.to_string();
    assert(r@ =~= decimal_digits(d as nat));
    r
}

/// The decimal digits of `n`, without sign or padding.
pub fn decimal_string(n: u64) -> (r: String)
    ensures
        r@ == decimal_digits(n as nat),
    decreases n,
{
    if n < 10 {
        digit_string(n)
    } else {
        let head = decimal_string(n / 10);
        let last = digit_string(n % 10);
        let r = head.concat(last.as_str());
        proof {
            let d = decimal_digits((n % 10) as nat);
            assert(d =~= seq![d[0]]);
        }
        r
    }
}

/// Relies on `atty::is`: whether standard output is a terminal, which only the
/// environment decides.
#[verifier::external_body]
fn stdout_is_terminal() -> (r: bool) {
    atty::is(atty::Stream::Stdout)
}

impl FormatOption {
    /// Renders a byte count.
    pub fn format(&self, size: u64) -> (r: String)
        ensures
            *self == FormatOption::Decimal ==> r@ == size_text(size, false),
            *self == FormatOption::Binary ==> r@ == size_text(size, true),
            *self == FormatOption::Bytes ==> r@ == decimal_digits(size as nat),
            *self == FormatOption::Auto ==> r@ == size_text(size, false) || r@ == decimal_digits(
                size as nat,
            ),
    {
        match self {
            FormatOption::Decimal => format_decimal(size),
            FormatOption::Binary => format_binary(size),
            FormatOption::Bytes => decimal_string(size),
            FormatOption::Auto => {
                if stdout_is_terminal() {
                    format_decimal(size)
                } else {
                    decimal_string(size)
                }
            },
        }
    }
}

} // verus!
