//! The time-synchronization result and the exact text of the two lines that
//! report it: the stratum as a plain decimal, the clock offset as a signed
//! decimal with six fractional digits.

use vstd::prelude::*;
use vstd::string::StringExecFns;

verus! {

/// Terminal output of a successful run. The clock offset is carried in
/// microseconds so that the six-fractional-digit report is exact.
#[derive(Clone, Copy, Debug, PartialEq, Eq, Structural)]
pub struct TimeSyncResult {
    /// Distance from the reference clock, as reported by the server.
    pub stratum: i64,
    /// Measured offset between the local and the server clock, in
    /// microseconds (may be negative).
    pub time_diff_micros: i64,
}

/// The one-character text of a decimal digit.
pub open spec fn digit_rep(d: nat) -> Seq<char>
    recommends
        d < 10,
{
    if d == 0 {
        "0"@
    } else if d == 1 {
        "1"@
    } else if d == 2 {
        "2"@
    } else if d == 3 {
        "3"@
    } else if d == 4 {
        "4"@
    } else if d == 5 {
        "5"@
    } else if d == 6 {
        "6"@
    } else if d == 7 {
        "7"@
    } else if d == 8 {
        "8"@
    } else {
        "9"@
    }
}

/// The decimal text of `n`, without leading zeros (a single zero for 0).
pub open spec fn decimal_rep(n: nat) -> Seq<char>
    decreases n,
{
    if n < 10 {
        digit_rep(n)
    } else {
        decimal_rep(n / 10) + digit_rep(n % 10)
    }
}

/// The last `width` decimal digits of `n`, zero-padded to exactly `width`
/// characters.
pub open spec fn padded_decimal_rep(n: nat, width: nat) -> Seq<char>
    decreases width,
{
    if width == 0 {
        Seq::<char>::empty()
    } else {
        padded_decimal_rep(n / 10, (width - 1) as nat) + digit_rep(n % 10)
    }
}

/// The magnitude of `m`.
pub open spec fn mag(m: int) -> nat {
    if m >= 0 {
        m as nat
    } else {
        (-m) as nat
    }
}

/// The decimal text of `m`, with a leading minus sign when `m` is negative.
pub open spec fn signed_decimal_rep(m: int) -> Seq<char> {
    if m < 0 {
        "-"@ + decimal_rep(mag(m))
    } else {
        decimal_rep(mag(m))
    }
}

/// The text of a microsecond count read as seconds: sign, whole seconds, a
/// point, then exactly six fractional digits. The sign is the sign of the
/// count, so an offset below one second keeps its minus.
pub open spec fn offset_rep(micros: int) -> Seq<char> {
    (if micros < 0 {
        "-"@
    } else {
        Seq::<char>::empty()
    }) + decimal_rep(mag(micros) / 1000000) + "."@ + padded_decimal_rep(mag(micros) % 1000000, 6)
}

/// The first report line: the stratum.
pub open spec fn stratum_line_rep(t: TimeSyncResult) -> Seq<char> {
    "stratum: "@ + signed_decimal_rep(t.stratum as int)
}

/// The second report line: the offset in seconds, to six decimal places.
pub open spec fn offset_line_rep(t: TimeSyncResult) -> Seq<char> {
    "offset: "@ + offset_rep(t.time_diff_micros as int)
}

/// One decimal digit as text.
fn digit_str(d: u64) -> (r: &'static str)
    requires
        d < 10,
    ensures
        r@ == digit_rep(d as nat),
{
    if d == 0 {
        "0"
    } else if d == 1 {
        "1"
    } else if d == 2 {
        "2"
    } else if d == 3 {
        "3"
    } else if d == 4 {
        "4"
    } else if d == 5 {
        "5"
    } else if d == 6 {
        "6"
    } else if d == 7 {
        "7"
    } else if d == 8 {
        "8"
    } else {
        "9"
    }
}

/// Renders `n` in decimal.
pub fn decimal(n: u64) -> (s: String)
    ensures
        s@ == decimal_rep(n as nat),
    decreases n,
{
    if n < 10 {
        String::from_str(digit_str(n))
    } else {
        let mut s = decimal(n / 10);
        s.append(digit_str(n % 10));
        s
    }
}

/// Renders the last `width` decimal digits of `n`, zero-padded.
pub fn padded_decimal(n: u64, width: u64) -> (s: String)
    ensures
        s@ == padded_decimal_rep(n as nat, width as nat),
    decreases width,
{
    if width == 0 {
        String::new()
    } else {
        let mut s = padded_decimal(n / 10, width - 1);
        s.append(digit_str(n % 10));
        s
    }
}

/// The magnitude of `m`, computed without overflow at `i64::MIN`.
fn magnitude(m: i64) -> (r: u64)
    ensures
        r as nat == mag(m as int),
{
    if m >= 0 {
        m as u64
    } else {
        ((-(m + 1)) as u64) + 1
    }
}

/// Renders `m` in decimal, with a leading minus sign when negative.
pub fn signed_decimal(m: i64) -> (s: String)
    ensures
        s@ == signed_decimal_rep(m as int),
{
    if m < 0 {
        let mut s = String::from_str("-");
        s.append(decimal(magnitude(m)).as_str());
        s
    } else {
        decimal(magnitude(m))
    }
}

/// Renders the stratum line of the report.
pub fn format_stratum_line(t: &TimeSyncResult) -> (s: String)
    ensures
        s@ == stratum_line_rep(*t),
{
    let mut s = String::from_str("stratum: ");
    s.append(signed_decimal(t.stratum).as_str());
    s
}

/// Renders the offset line of the report.
pub fn format_offset_line(t: &TimeSyncResult) -> (s: String)
    ensures
        s@ == offset_line_rep(*t),
{
    let m = t.time_diff_micros;
    let whole: u64 = magnitude(m) / 1000000;
    let frac: u64 = magnitude(m) % 1000000;
    let mut s = String::from_str("offset: ");
    if m < 0 {
        s.append("-");
    }
    s.append(decimal(whole).as_str());
    s.append(".");
    s.append(padded_decimal(frac, 6).as_str());
    proof {
        assert(s@ =~= offset_line_rep(*t));
    }
    s
}

} // verus!
