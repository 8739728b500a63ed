//! The summary that is drawn up once the run has been cancelled.
//!
//! All arithmetic is exact: times are whole milliseconds and the rate is
//! kept in thousandths of a request per second.

use crate::args::texts;
use crate::decimal::{decimal, padded, push_decimal, push_padded};
use vstd::prelude::*;

verus! {

/// The effective rate in thousandths of a request per second, rounded down:
/// the responses counted, divided by the seconds that passed. There is no
/// rate over no time.
pub open spec fn rate_of(count: u64, elapsed_ms: u64) -> Option<nat> {
    if elapsed_ms == 0 {
        None
    } else {
        Some((count * 1_000_000 / (elapsed_ms as int)) as nat)
    }
}

/// The effective rate in thousandths of a request per second, rounded down,
/// or `None` when no time has passed.
pub fn rate_milli(count: u64, elapsed_ms: u64) -> (rate: Option<u128>)
    ensures
        rate is None <==> elapsed_ms == 0,
        rate matches Some(r) ==> rate_of(count, elapsed_ms) == Some(r as nat),
        rate matches Some(r) ==> r * elapsed_ms <= count * 1_000_000 < (r + 1) * elapsed_ms,
{
    if elapsed_ms == 0 {
        None
    } else {
        let scaled: u128 = (count as u128) * 1_000_000u128;
        let r: u128 = scaled / (elapsed_ms as u128);
        assert(r * elapsed_ms <= scaled < (r + 1) * elapsed_ms) by (nonlinear_arith)
            requires
                r == scaled / (elapsed_ms as u128),
                elapsed_ms > 0,
        ;
        Some(r)
    }
}

/// A count of thousandths written as a decimal fraction with three places.
pub open spec fn thousandths(value: nat) -> Seq<char> {
    decimal(value / 1000) + "."@ + padded(value % 1000, 3)
}

/// Appends a count of thousandths as a decimal fraction with three places.
pub fn push_thousandths(out: &mut String, value: u128)
    ensures
        final(out)@ == old(out)@ + thousandths(value as nat),
{
    push_decimal(out, value / 1000);
    out.append(".");
    push_padded(out, value % 1000, 3);
    assert(final(out)@ =~= old(out)@ + thousandths(value as nat));
}

/// The line that names how many URLs were under test.
pub open spec fn header_text(url_count: nat) -> Seq<char> {
    "was requesting "@ + decimal(url_count) + " urls:"@
}

/// The line that gives the time between the start of the load phase and the
/// cancellation, in seconds.
pub open spec fn elapsed_text(elapsed_ms: u64) -> Seq<char> {
    "elapsed time: "@ + thousandths(elapsed_ms as nat) + "s"@
}

/// The line that gives the number of responses counted.
pub open spec fn count_text(count: u64) -> Seq<char> {
    "# responses received: "@ + decimal(count as nat)
}

/// The line that gives the effective rate. Over no time at all the rate of
/// some responses is infinite and that of none is not a number.
pub open spec fn rate_text(count: u64, elapsed_ms: u64) -> Seq<char> {
    match rate_of(count, elapsed_ms) {
        Some(rate) => "RPS: "@ + thousandths(rate),
        None => if count == 0 {
            "RPS: NaN"@
        } else {
            "RPS: inf"@
        },
    }
}

/// The whole summary, line by line: an empty line, the number of URLs, each
/// URL, the elapsed time, the responses counted and the effective rate.
pub open spec fn report_text(urls: Seq<Seq<char>>, elapsed_ms: u64, count: u64) -> Seq<Seq<char>> {
    seq![Seq::<char>::empty(), header_text(urls.len())] + urls + seq![
        elapsed_text(elapsed_ms),
        count_text(count),
        rate_text(count, elapsed_ms),
    ]
}

/// The line that gives the effective rate.
pub fn rate_line(count: u64, elapsed_ms: u64) -> (line: String)
    ensures
        line@ == rate_text(count, elapsed_ms),
{
    match rate_milli(count, elapsed_ms) {
        Some(rate) => {
            let mut line = String::from_str("RPS: ");
            push_thousandths(&mut line, rate);
            line
        },
        None => {
            if count == 0 {
                String::from_str("RPS: NaN")
            } else {
                String::from_str("RPS: inf")
            }
        },
    }
}

/// Draws up the summary of a run that requested `urls` and counted `count`
/// responses in `elapsed_ms` milliseconds.
pub fn report_lines(urls: &Vec<String>, elapsed_ms: u64, count: u64) -> (lines: Vec<String>)
    ensures
        texts(lines@) == report_text(texts(urls@), elapsed_ms, count),
{
    let mut lines: Vec<String> = Vec::new();
    lines.push(String::new());
    let mut header = String::from_str("was requesting ");
    push_decimal(&mut header, urls.len() as u128);
    header.append(" urls:");
    lines.push(header);
    let mut i: usize = 0;
    while i < urls.len()
        invariant
            i <= urls@.len(),
            lines@.len() == 2 + i,
            lines@[0]@ == Seq::<char>::empty(),
            lines@[1]@ == header_text(urls@.len()),
            forall|k: int| 0 <= k < i ==> (#[trigger] lines@[2 + k])@ == urls@[k]@,
        decreases urls@.len() - i,
    {
        lines.push(urls[i].clone());
        i += 1;
    }
    let mut elapsed = String::from_str("elapsed time: ");
    push_thousandths(&mut elapsed, elapsed_ms as u128);
    elapsed.append("s");
    lines.push(elapsed);
    let mut counted = String::from_str("# responses received: ");
    push_decimal(&mut counted, count as u128);
    lines.push(counted);
    lines.push(rate_line(count, elapsed_ms));
    proof {
        let want = report_text(texts(urls@), elapsed_ms, count);
        let n = urls@.len() as int;
        assert(texts(lines@).len() == want.len());
        assert forall|k: int| 0 <= k < want.len() implies texts(lines@)[k] == want[k] by {
            if 2 <= k < 2 + n {
                assert(lines@[2 + (k - 2)]@ == urls@[k - 2]@);
            }
        }
        assert(texts(lines@) =~= want);
    }
    lines
}

} // verus!
