use vstd::prelude::*;

use crate::decode::{Coordinates, ForecastPeriod};
use crate::pipeline::Report;

verus! {

/// The decimal digit for `d`.
pub open spec fn digit_char(d: nat) -> char {
    if d == 0 { '0' }
    else if d == 1 { '1' }
    else if d == 2 { '2' }
    else if d == 3 { '3' }
    else if d == 4 { '4' }
    else if d == 5 { '5' }
    else if d == 6 { '6' }
    else if d == 7 { '7' }
    else if d == 8 { '8' }
    else { '9' }
}

/// `n` in decimal, without leading zeros.
pub open spec fn decimal(n: nat) -> Seq<char>
    decreases n,
{
    if n < 10 {
        seq![digit_char(n)]
    } else {
        decimal(n / 10).push(digit_char(n % 10))
    }
}

/// `n` spaces.
pub open spec fn spaces(n: nat) -> Seq<char> {
    Seq::new(n, |i: int| ' ')
}

/// `s` followed by spaces up to `width` characters.
pub open spec fn pad_right(s: Seq<char>, width: nat) -> Seq<char> {
    if s.len() >= width {
        s
    } else {
        s + spaces((width - s.len()) as nat)
    }
}

/// `s` preceded by spaces up to `width` characters.
pub open spec fn pad_left(s: Seq<char>, width: nat) -> Seq<char> {
    if s.len() >= width {
        s
    } else {
        spaces((width - s.len()) as nat) + s
    }
}

/// The line for one forecast period: the name in 16 columns, a colon, the
/// chance of rain right-aligned in 2 columns, and a percent sign.
pub open spec fn period_line_of(p: (Seq<char>, u64)) -> Seq<char> {
    pad_right(p.0, 16) + ": "@ + pad_left(decimal(p.1 as nat), 2) + " %"@
}

/// The line for the caller's address.
pub open spec fn ip_line_of(ip: Seq<char>) -> Seq<char> {
    "My IP: "@ + ip
}

/// The line for the caller's position.
pub open spec fn location_line_of(c: (Seq<char>, Seq<char>)) -> Seq<char> {
    "My location: lat "@ + c.0 + ", lon "@ + c.1
}

fn digit_text(d: u64) -> (r: &'static str)
    requires
        d < 10,
    ensures
        r@ == seq![digit_char(d as nat)],
{
    proof {
        reveal_strlit("0");
        reveal_strlit("1");
        reveal_strlit("2");
        reveal_strlit("3");
        reveal_strlit("4");
        reveal_strlit("5");
        reveal_strlit("6");
        reveal_strlit("7");
        reveal_strlit("8");
        reveal_strlit("9");
    }
    if d == 0 {
        "0"
    } else if d == 1 {
        "1"
    } else if d == 2 {
        "2"
    } else if d == 3 {
        "3"
    } else if d == 4 {
        "4"
    } else if d == 5 {
        "5"
    } else if d == 6 {
        "6"
    } else if d == 7 {
        "7"
    } else if d == 8 {
        "8"
    } else {
        "9"
    }
}

/// `n` in decimal.
pub fn decimal_text(n: u64) -> (r: String)
    ensures
        r@ == decimal(n as nat),
    decreases n,
{
    if n < 10 {
        String::from_str(digit_text(n))
    } else {
        let r = decimal_text(n / 10).concat(digit_text(n % 10));
        proof {
            assert(r@ =~= decimal(n as nat));
        }
        r
    }
}

fn space_run(n: usize) -> (r: String)
    ensures
        r@ == spaces(n as nat),
{
    proof {
        reveal_strlit(" ");
    }
    let mut r = String::new();
    let mut i: usize = 0;
    while i < n
        invariant
            0 <= i <= n,
            r@ == spaces(i as nat),
        decreases n - i,
    {
        r.append(" ");
        proof {
            reveal_strlit(" ");
            assert(r@ =~= spaces((i + 1) as nat));
        }
        i = i + 1;
    }
    r
}

fn padded_right(s: &str, width: usize) -> (r: String)
    ensures
        r@ == pad_right(s@, width as nat),
{
    let n = s.unicode_len();
    if n >= width {
        String::from_str(s)
    } else {
        String::from_str(s).concat(space_run(width - n).as_str())
    }
}

fn padded_left(s: &str, width: usize) -> (r: String)
    ensures
        r@ == pad_left(s@, width as nat),
{
    let n = s.unicode_len();
    if n >= width {
        String::from_str(s)
    } else {
        space_run(width - n).concat(s)
    }
}

/// The console line for one forecast period.
pub fn period_line(p: &ForecastPeriod) -> (r: String)
    ensures
        r@ == period_line_of(p@),
{
    let chance = decimal_text(p.rain_probability_percent);
    let r = padded_right(p.label.as_str(), 16).concat(": ").concat(
        padded_left(chance.as_str(), 2).as_str(),
    ).concat(" %");
    proof {
        assert(r@ =~= period_line_of(p@));
    }
    r
}

/// The console line for the caller's address.
pub fn ip_line(ip: &str) -> (r: String)
    ensures
        r@ == ip_line_of(ip@),
{
    String::from_str("My IP: ").concat(ip)
}

/// The console line for the caller's position.
pub fn location_line(c: &Coordinates) -> (r: String)
    ensures
        r@ == location_line_of(c@),
{
    let r = String::from_str("My location: lat ").concat(c.latitude.as_str()).concat(
        ", lon ",
    ).concat(c.longitude.as_str());
    proof {
        assert(r@ =~= location_line_of(c@));
    }
    r
}

/// All the lines of a report: address, position, then one line per
/// forecast period in the order of the forecast.
pub open spec fn report_lines_of(r: (Seq<char>, (Seq<char>, Seq<char>), Seq<(Seq<char>, u64)>)) -> Seq<Seq<char>> {
    seq![ip_line_of(r.0), location_line_of(r.1)] + r.2.map_values(|p: (Seq<char>, u64)| period_line_of(p))
}

/// The console lines of a finished run.
pub fn report_lines(report: &Report) -> (r: Vec<String>)
    ensures
        r@.map_values(|s: String| s@) == report_lines_of(report@),
{
    let mut lines: Vec<String> = Vec::new();
    lines.push(ip_line(report.ip.as_str()));
    lines.push(location_line(&report.location));
    let ghost head = seq![ip_line_of(report@.0), location_line_of(report@.1)];
    let ghost periods = report@.2;
    let mut i: usize = 0;
    proof {
        assert(lines@.map_values(|s: String| s@) =~= head);
    }
    while i < report.forecast.len()
        invariant
            0 <= i <= report.forecast@.len(),
            periods == report@.2,
            periods.len() == report.forecast@.len(),
            head == seq![ip_line_of(report@.0), location_line_of(report@.1)],
            forall|j: int| 0 <= j < periods.len() ==> periods[j] == report.forecast@[j]@,
            lines@.map_values(|s: String| s@) == head + periods.take(i as int).map_values(
                |p: (Seq<char>, u64)| period_line_of(p),
            ),
        decreases report.forecast@.len() - i,
    {
        let ghost before = lines@;
        lines.push(period_line(&report.forecast[i]));
        proof {
            assert(lines@.map_values(|s: String| s@) =~= before.map_values(|s: String| s@).push(
                period_line_of(periods[i as int]),
            ));
            assert(periods.take(i + 1) =~= periods.take(i as int).push(periods[i as int]));
            assert(periods.take(i + 1).map_values(|p: (Seq<char>, u64)| period_line_of(p))
                =~= periods.take(i as int).map_values(|p: (Seq<char>, u64)| period_line_of(p)).push(
                period_line_of(periods[i as int]),
            ));
            assert(lines@.map_values(|s: String| s@) =~= head + periods.take(i + 1).map_values(
                |p: (Seq<char>, u64)| period_line_of(p),
            ));
        }
        i = i + 1;
    }
    proof {
        assert(periods.take(i as int) =~= periods);
    }
    lines
}

} // verus!
