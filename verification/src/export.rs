//! Exporting the log: the name of the copy and what the user is told.
use vstd::prelude::*;
use vstd::string::*;

use crate::text::{decimal_text, push_two_digits};
#[allow(unused_imports)]
use crate::{geometry, text};

verus! {

/// A moment in local time.
#[derive(Clone, Copy, Debug, PartialEq, Eq, Structural)]
pub struct Timestamp {
    pub year: u32,
    pub month: u32,
    pub day: u32,
    pub hour: u32,
    pub minute: u32,
    pub second: u32,
}

impl Timestamp {
    /// Everything but the year has at most two digits.
    pub open spec fn valid(self) -> bool {
        self.month < 100 && self.day < 100 && self.hour < 100 && self.minute < 100 && self.second
            < 100
    }
}

/// A number of zeros.
pub open spec fn zeros(n: int) -> Seq<char> {
    Seq::new(geometry::max_of(n, 0) as nat, |i: int| '0')
}

/// A year with at least four digits.
pub open spec fn year_digits(year: u32) -> Seq<char> {
    zeros(4 - text::decimal(year as nat).len()) + text::decimal(year as nat)
}

/// Month and day, a dash, and the time of day.
pub open spec fn day_and_time(t: Timestamp) -> Seq<char> {
    text::two_digits(t.month as int) + text::two_digits(t.day as int) + seq!['-']
        + text::two_digits(t.hour as int) + text::two_digits(t.minute as int) + text::two_digits(
        t.second as int,
    )
}

/// The name of a copy of the log that is made at a moment.
pub open spec fn log_name(t: Timestamp) -> Seq<char> {
    "oh-my-tab-"@ + year_digits(t.year) + day_and_time(t) + ".log"@
}

/// The name that is suggested for a copy of the log.
pub fn suggested_export_log_name(t: Timestamp) -> (r: String)
    requires
        t.valid(),
    ensures
        r@ == log_name(t),
{
    proof {
        reveal_strlit("0");
        reveal_strlit("-");
        assert("0"@ =~= seq!['0']);
        assert("-"@ =~= seq!['-']);
    }
    let mut name = String::new();
    name.append("oh-my-tab-");
    let year = decimal_text(t.year as u64);
    let len = year.as_str().unicode_len();
    let mut i: usize = len;
    let ghost start = name@;
    assert(name@ =~= start + zeros(0));
    while i < 4
        invariant
            len <= i,
            len < 4 ==> i <= 4,
            len >= 4 ==> i == len,
            name@ =~= start + zeros(i - len),
            "0"@ =~= seq!['0'],
        decreases 4 - i,
    {
        name.append("0");
        i += 1;
    }
    assert(name@ =~= start + zeros(4 - len));
    name.append(year.as_str());
    push_two_digits(&mut name, t.month);
    push_two_digits(&mut name, t.day);
    name.append("-");
    push_two_digits(&mut name, t.hour);
    push_two_digits(&mut name, t.minute);
    push_two_digits(&mut name, t.second);
    name.append(".log");
    assert(name@ =~= log_name(t));
    name
}

proof fn zeros_count_for_nothing(n: int, s: Seq<char>)
    ensures
        text::digits_value(zeros(n) + s) == text::digits_value(s),
    decreases geometry::max_of(n, 0), s.len(),
{
    let z = zeros(n);
    let all = z + s;
    if s.len() > 0 {
        assert(all.drop_last() =~= z + s.drop_last());
        zeros_count_for_nothing(n, s.drop_last());
    } else if n > 0 {
        assert(all =~= z);
        assert(z.drop_last() =~= zeros(n - 1) + s);
        zeros_count_for_nothing(n - 1, s);
    } else {
        assert(all =~= s);
    }
}

proof fn two_digits_tell_numbers_apart(a: int, b: int)
    requires
        0 <= a < 100,
        0 <= b < 100,
        text::two_digits(a) == text::two_digits(b),
    ensures
        a == b,
{
    assert(text::two_digits(a)[0] == text::two_digits(b)[0]);
    assert(text::two_digits(a)[1] == text::two_digits(b)[1]);
}

/// Copies that are made at different moments have different names, so that none
/// overwrites another.
pub proof fn log_names_are_distinct(a: Timestamp, b: Timestamp)
    requires
        a.valid(),
        b.valid(),
        log_name(a) == log_name(b),
    ensures
        a == b,
{
    let p = "oh-my-tab-"@.len() as int;
    let ya = year_digits(a.year);
    let yb = year_digits(b.year);
    assert(log_name(a).len() == p + ya.len() + 11 + ".log"@.len());
    assert(log_name(b).len() == p + yb.len() + 11 + ".log"@.len());
    let n = ya.len() as int;
    assert(log_name(a).subrange(p, p + n) =~= ya);
    assert(log_name(b).subrange(p, p + n) =~= yb);
    let da = day_and_time(a);
    let db = day_and_time(b);
    assert(log_name(a).subrange(p + n, p + n + 11) =~= da);
    assert(log_name(b).subrange(p + n, p + n + 11) =~= db);
    assert(da.subrange(0, 2) =~= text::two_digits(a.month as int));
    assert(db.subrange(0, 2) =~= text::two_digits(b.month as int));
    assert(da.subrange(2, 4) =~= text::two_digits(a.day as int));
    assert(db.subrange(2, 4) =~= text::two_digits(b.day as int));
    assert(da.subrange(5, 7) =~= text::two_digits(a.hour as int));
    assert(db.subrange(5, 7) =~= text::two_digits(b.hour as int));
    assert(da.subrange(7, 9) =~= text::two_digits(a.minute as int));
    assert(db.subrange(7, 9) =~= text::two_digits(b.minute as int));
    assert(da.subrange(9, 11) =~= text::two_digits(a.second as int));
    assert(db.subrange(9, 11) =~= text::two_digits(b.second as int));
    two_digits_tell_numbers_apart(a.month as int, b.month as int);
    two_digits_tell_numbers_apart(a.day as int, b.day as int);
    two_digits_tell_numbers_apart(a.hour as int, b.hour as int);
    two_digits_tell_numbers_apart(a.minute as int, b.minute as int);
    two_digits_tell_numbers_apart(a.second as int, b.second as int);
    zeros_count_for_nothing(
        4 - text::decimal(a.year as nat).len(),
        text::decimal(a.year as nat),
    );
    zeros_count_for_nothing(
        4 - text::decimal(b.year as nat).len(),
        text::decimal(b.year as nat),
    );
    text::decimal_has_its_value(a.year);
    text::decimal_has_its_value(b.year);
}

/// What the user is told about an export.
#[derive(Debug)]
pub enum ExportAlert {
    /// There is no log to copy.
    NoSource,
    /// The log was copied.
    Done { path: String },
    /// The log could not be copied.
    Failed { reason: String },
}

impl ExportAlert {
    /// The title of the message.
    pub fn title_key(&self) -> (r: &'static str)
        ensures
            r@ == if self is Done {
                "settings.export_done_title"@
            } else {
                "settings.export_failed_title"@
            },
    {
        match self {
            ExportAlert::Done { .. } => "settings.export_done_title",
            _ => "settings.export_failed_title",
        }
    }

    /// The text of the message.
    pub fn message_key(&self) -> (r: &'static str)
        ensures
            r@ == match *self {
                ExportAlert::NoSource => "settings.export_failed_no_source"@,
                ExportAlert::Done { path } => "settings.export_done_msg"@,
                ExportAlert::Failed { reason } => "settings.export_failed_msg"@,
            },
    {
        match self {
            ExportAlert::NoSource => "settings.export_failed_no_source",
            ExportAlert::Done { .. } => "settings.export_done_msg",
            ExportAlert::Failed { .. } => "settings.export_failed_msg",
        }
    }
}

/// What the user is told: nothing where they chose no place for the copy. The outcome
/// is nothing as long as nothing was copied.
pub fn handle_export_logs(
    has_source: bool,
    destination: Option<String>,
    outcome: Option<Result<(), String>>,
) -> (r: Option<ExportAlert>)
    ensures
        r == if !has_source {
            Some(ExportAlert::NoSource)
        } else {
            match (destination, outcome) {
                (Some(path), Some(Ok(_))) => Some(ExportAlert::Done { path }),
                (Some(_), Some(Err(reason))) => Some(ExportAlert::Failed { reason }),
                _ => None,
            }
        },
{
    if !has_source {
        return Some(ExportAlert::NoSource);
    }
    match destination {
        None => None,
        Some(path) => match outcome {
            None => None,
            Some(Ok(_)) => Some(ExportAlert::Done { path }),
            Some(Err(reason)) => Some(ExportAlert::Failed { reason }),
        },
    }
}

/// A copy of the log is named after the moment: the name starts with that of the application,
/// goes on with the year in at least four digits, month, day, a dash, hour, minute and second
/// in two digits each, and ends as a log.
pub proof fn log_names_tell_the_moment(t: Timestamp)
    requires
        t.valid(),
    ensures
        ({
            let s = log_name(t);
            let year = year_digits(t.year);
            let n = 10 + year.len() as int;
            &&& s.len() == n + 15
            &&& s.take(10) == "oh-my-tab-"@
            &&& s.subrange(10, n) == year
            &&& year.len() >= 4
            &&& t.year >= 1_000 ==> year == text::decimal(t.year as nat)
            &&& text::digits_value(year) == t.year
            &&& s[n] == text::digit_char(t.month as int / 10)
            &&& s[n + 1] == text::digit_char(t.month as int % 10)
            &&& s[n + 2] == text::digit_char(t.day as int / 10)
            &&& s[n + 3] == text::digit_char(t.day as int % 10)
            &&& s[n + 4] == '-'
            &&& s[n + 5] == text::digit_char(t.hour as int / 10)
            &&& s[n + 6] == text::digit_char(t.hour as int % 10)
            &&& s[n + 7] == text::digit_char(t.minute as int / 10)
            &&& s[n + 8] == text::digit_char(t.minute as int % 10)
            &&& s[n + 9] == text::digit_char(t.second as int / 10)
            &&& s[n + 10] == text::digit_char(t.second as int % 10)
            &&& s.skip(n + 11) == ".log"@
        }),
{
    reveal_strlit("oh-my-tab-");
    reveal_strlit(".log");
    let s = log_name(t);
    let year = year_digits(t.year);
    let n = 10 + year.len() as int;
    assert(s.take(10) =~= "oh-my-tab-"@);
    assert(s.subrange(10, n) =~= year);
    assert(s.skip(n + 11) =~= ".log"@);
    zeros_count_for_nothing(
        4 - text::decimal(t.year as nat).len(),
        text::decimal(t.year as nat),
    );
    text::decimal_has_its_value(t.year);
    if t.year >= 1_000 {
        let y = t.year as nat;
        reveal_with_fuel(text::digits, 4);
        assert(text::decimal(y).len() >= 4);
        assert(year =~= text::decimal(y));
    }
}

} // verus!
