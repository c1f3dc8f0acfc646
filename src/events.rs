//! The structured events that the supervisor publishes: small JSON envelopes
//! with a `type`, and a `message` or an exit `code`, and the accumulation of
//! the worker's error stream into one summary.

use vstd::prelude::*;
use crate::text::{escape, escaped, join, joined, push_char, views};

verus! {

/// The envelope of one error-stream line, published as it arrives.
pub open spec fn log_event_text(line: Seq<char>) -> Seq<char> {
    "{\"type\":\"log\",\"message\":\""@ + escaped(line) + "\"}"@
}

/// The envelope that sums up the error stream once it closes.
pub open spec fn error_event_text(lines: Seq<Seq<char>>) -> Seq<char> {
    "{\"type\":\"error\",\"message\":\""@ + escaped(joined(lines, " | "@)) + "\"}"@
}

/// The text kept as the last error of a run: the lines, one per line.
pub open spec fn last_error_text(lines: Seq<Seq<char>>) -> Seq<char> {
    joined(lines, "\n"@)
}

/// The decimal digit for `d < 10`.
pub open spec fn digit(d: nat) -> char {
    ((d + 48) as u8) as char
}

/// The decimal digits of `n`, without sign or leading zeros.
pub open spec fn digits(n: nat) -> Seq<char>
    decreases n,
{
    if n < 10 {
        seq![digit(n)]
    } else {
        digits(n / 10).push(digit(n % 10))
    }
}

/// `n` in decimal, with a leading `-` when negative.
pub open spec fn decimal(n: int) -> Seq<char> {
    if n < 0 {
        seq!['-'] + digits((-n) as nat)
    } else {
        digits(n as nat)
    }
}

/// The envelope published when the worker's exit is observed.
pub open spec fn stopped_event_text(code: int) -> Seq<char> {
    "{\"type\":\"stopped\",\"code\":"@ + decimal(code) + "}"@
}

/// The exit code reported when the system gives none (the worker was ended
/// by a signal).
pub const NO_EXIT_CODE: i32 = -1;

fn digits_of(n: u64) -> (r: String)
    ensures
        r@ == digits(n as nat),
    decreases n,
{
    if n < 10 {
        let mut s = String::new();
        push_char(&mut s, ((n as u8) + 48) as char);
        s
    } else {
        let mut s = digits_of(n / 10);
        push_char(&mut s, (((n % 10) as u8) + 48) as char);
        s
    }
}

/// `n` in decimal.
pub fn decimal_of(n: i32) -> (r: String)
    ensures
        r@ == decimal(n as int),
{
    if n < 0 {
        let mut s = String::from_str("-");
        let m: i64 = -(n as i64);
        let d = digits_of(m as u64);
        s.append(d.as_str());
        proof {
            reveal_strlit("-");
        }
        s
    } else {
        digits_of(n as u64)
    }
}

/// The log envelope of one error-stream line.
pub fn log_event(line: &str) -> (r: String)
    ensures
        r@ == log_event_text(line@),
{
    let mut s = String::from_str("{\"type\":\"log\",\"message\":\"");
    let e = escape(line);
    s.append(e.as_str());
    s.append("\"}");
    s
}

/// The summary envelope of the error-stream lines `lines`.
pub fn error_event(lines: &Vec<String>) -> (r: String)
    ensures
        r@ == error_event_text(views(lines@)),
{
    let all = join(lines, " | ");
    let mut s = String::from_str("{\"type\":\"error\",\"message\":\"");
    let e = escape(all.as_str());
    s.append(e.as_str());
    s.append("\"}");
    s
}

/// The envelope of an observed exit; `code` is `None` where the system gave
/// no exit code.
pub fn stopped_event(code: Option<i32>) -> (r: String)
    ensures
        r@ == stopped_event_text(
            match code {
                Some(c) => c as int,
                None => NO_EXIT_CODE as int,
            },
        ),
{
    let c = match code {
        Some(c) => c,
        None => NO_EXIT_CODE,
    };
    let mut s = String::from_str("{\"type\":\"stopped\",\"code\":");
    let d = decimal_of(c);
    s.append(d.as_str());
    s.append("}");
    s
}

/// What the error stream left behind once it closed: one summary event, and
/// the text to keep as the run's last error.
pub struct StderrSummary {
    pub event: String,
    pub last_error: String,
}

/// The lines of a worker's error stream, in the order they arrived.
pub struct StderrLog {
    lines: Vec<String>,
}

impl View for StderrLog {
    type V = Seq<Seq<char>>;

    closed spec fn view(&self) -> Seq<Seq<char>> {
        views(self.lines@)
    }
}

impl StderrLog {
    /// A log with no lines.
    pub fn new() -> (r: StderrLog)
        ensures
            r@ == Seq::<Seq<char>>::empty(),
    {
        let r = StderrLog { lines: Vec::new() };
        proof {
            assert(r@ =~= Seq::<Seq<char>>::empty());
        }
        r
    }

    /// Keeps `line` and returns the event that publishes it now.
    pub fn record(&mut self, line: &str) -> (r: String)
        ensures
            final(self)@ == old(self)@.push(line@),
            r@ == log_event_text(line@),
    {
        let kept = String::from_str(line);
        self.lines.push(kept);
        proof {
            assert(self@ =~= old(self)@.push(line@));
        }
        log_event(line)
    }

    /// The summary of the closed stream: none when no line came.
    pub fn summary(&self) -> (r: Option<StderrSummary>)
        ensures
            match r {
                None => self@.len() == 0,
                Some(s) => self@.len() > 0 && s.event@ == error_event_text(self@)
                    && s.last_error@ == last_error_text(self@),
            },
    {
        if self.lines.len() == 0 {
            None
        } else {
            let event = error_event(&self.lines);
            let last_error = join(&self.lines, "\n");
            Some(StderrSummary { event, last_error })
        }
    }
}

} // verus!
