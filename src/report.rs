//! The presence report: a heading with the date, then the absent and late
//! members, or a single line when nobody came in.
use vstd::prelude::*;
use vstd::string::*;
use crate::classify::texts;

verus! {

/// A calendar date of the proleptic Gregorian calendar.
#[derive(Clone, Copy, Debug, PartialEq, Eq, Structural)]
pub struct ReportDate {
    pub year: i32,
    pub month: u32,
    pub day: u32,
}

pub open spec fn is_leap_year(y: int) -> bool {
    (y % 4 == 0 && y % 100 != 0) || y % 400 == 0
}

pub open spec fn days_in_month(y: int, m: int) -> int {
    if m == 2 {
        if is_leap_year(y) {
            29
        } else {
            28
        }
    } else if m == 4 || m == 6 || m == 9 || m == 11 {
        30
    } else {
        31
    }
}

impl ReportDate {
    /// A real date with a year of four digits at most.
    pub open spec fn wf(self) -> bool {
        &&& 0 <= self.year <= 9999
        &&& 1 <= self.month <= 12
        &&& 1 <= self.day <= days_in_month(self.year as int, self.month as int)
    }

    /// The date `year`-`month`-`day`, if it exists and its year has four digits at most.
    pub fn new(year: i32, month: u32, day: u32) -> (r: Option<ReportDate>)
        ensures
            r is Some <==> (ReportDate { year, month, day }).wf(),
            r matches Some(d) ==> d == (ReportDate { year, month, day }),
    {
        if year < 0 || year > 9999 || month < 1 || month > 12 || day < 1 {
            return None;
        }
        let leap = (year % 4 == 0 && year % 100 != 0) || year % 400 == 0;
        let last: u32 = if month == 2 {
            if leap {
                29
            } else {
                28
            }
        } else if month == 4 || month == 6 || month == 9 || month == 11 {
            30
        } else {
            31
        };
        if day > last {
            None
        } else {
            Some(ReportDate { year, month, day })
        }
    }
}

pub open spec fn digit(d: int) -> char {
    if d == 0 {
        '0'
    } else if d == 1 {
        '1'
    } else if d == 2 {
        '2'
    } else if d == 3 {
        '3'
    } else if d == 4 {
        '4'
    } else if d == 5 {
        '5'
    } else if d == 6 {
        '6'
    } else if d == 7 {
        '7'
    } else if d == 8 {
        '8'
    } else {
        '9'
    }
}

/// `n` in decimal, without leading zeros.
pub open spec fn decimal(n: nat) -> Seq<char>
    decreases n,
{
    if n < 10 {
        seq![digit(n as int)]
    } else {
        decimal(n / 10) + seq![digit(n as int % 10)]
    }
}

/// `n` below 100 as two digits.
pub open spec fn two_digits(n: int) -> Seq<char> {
    seq![digit(n / 10), digit(n % 10)]
}

/// `n` below 10000 as four digits.
pub open spec fn four_digits(n: int) -> Seq<char> {
    seq![digit(n / 1000), digit(n / 100 % 10), digit(n / 10 % 10), digit(n % 10)]
}

pub open spec fn month_name(m: int) -> Seq<char> {
    if m == 1 {
        "January"@
    } else if m == 2 {
        "February"@
    } else if m == 3 {
        "March"@
    } else if m == 4 {
        "April"@
    } else if m == 5 {
        "May"@
    } else if m == 6 {
        "June"@
    } else if m == 7 {
        "July"@
    } else if m == 8 {
        "August"@
    } else if m == 9 {
        "September"@
    } else if m == 10 {
        "October"@
    } else if m == 11 {
        "November"@
    } else {
        "December"@
    }
}

/// The date as "Month DD, YYYY".
pub open spec fn date_label(d: ReportDate) -> Seq<char> {
    month_name(d.month as int) + " "@ + two_digits(d.day as int) + ", "@ + four_digits(
        d.year as int,
    )
}

/// Relies on chrono's `NaiveDate::from_ymd_opt`, which accepts every real date
/// with a year of four digits, and on its `format` with "%B %d, %Y": the English
/// month name, the day as two digits, the year as four digits.
#[verifier::external_body]
fn format_date(d: &ReportDate) -> (r: String)
    requires
        d.wf(),
    ensures
        r@ == date_label(*d),
{
    match chrono::NaiveDate::from_ymd_opt(d.year, d.month, d.day) {
        Some(date) => date.format("%B %d, %Y").to_string(),
        None => String::new(),
    }
}

pub open spec fn heading(d: ReportDate) -> Seq<char> {
    "## Presence Report - "@ + date_label(d) + "\n\n"@
}

pub open spec fn closed_note() -> Seq<char> {
    "Uh-oh, seems like the lab is closed today! 🏖️ Everyone is absent!"@
}

pub open spec fn no_absent_note() -> Seq<char> {
    "**Absent**\nNo one is absent today! 🎉\n\n"@
}

pub open spec fn no_late_note() -> Seq<char> {
    "**Late**\nNo one is late today! 🙌\n\n"@
}

/// One line of a numbered list: "<i>. <name>".
pub open spec fn numbered_line(i: nat, name: Seq<char>) -> Seq<char> {
    decimal(i) + ". "@ + name
}

/// The names as a list numbered from 1, one per line.
pub open spec fn numbered(names: Seq<Seq<char>>) -> Seq<char>
    decreases names.len(),
{
    if names.len() == 0 {
        Seq::empty()
    } else if names.len() == 1 {
        numbered_line(1, names[0])
    } else {
        numbered(names.drop_last()) + "\n"@ + numbered_line(names.len(), names.last())
    }
}

/// A section: its bold title line and the numbered names, or `empty_note`
/// when there are none.
pub open spec fn section(title: Seq<char>, names: Seq<Seq<char>>, empty_note: Seq<char>) -> Seq<
    char,
> {
    if names.len() == 0 {
        empty_note
    } else {
        title + numbered(names) + "\n\n"@
    }
}

/// The whole report.
pub open spec fn report_text(
    absent: Seq<Seq<char>>,
    late: Seq<Seq<char>>,
    total_members: int,
    date: ReportDate,
) -> Seq<char> {
    heading(date) + if absent.len() == total_members {
        closed_note()
    } else {
        section("**Absent**\n"@, absent, no_absent_note()) + section(
            "**Late**\n"@,
            late,
            no_late_note(),
        )
    }
}

fn digit_text(d: u64) -> (r: String)
    requires
        d < 10,
    ensures
        r@ == seq![digit(d as int)],
{
    let s = if d == 0 {
        "0"
    } else if d == 1 {
        "1"
    } else if d == 2 {
        "2"
    } else if d == 3 {
        "3"
    } else if d == 4 {
        "4"
    } else if d == 5 {
        "5"
    } else if d == 6 {
        "6"
    } else if d == 7 {
        "7"
    } else if d == 8 {
        "8"
    } else {
        "9"
    };
    proof {
        reveal_strlit("0");
        reveal_strlit("1");
        reveal_strlit("2");
        reveal_strlit("3");
        reveal_strlit("4");
        reveal_strlit("5");
        reveal_strlit("6");
        reveal_strlit("7");
        reveal_strlit("8");
        reveal_strlit("9");
    }
    assert(s@ =~= seq![digit(d as int)]);
    String::from_str(s)
}

/// `n` written in decimal.
pub fn decimal_text(n: u64) -> (r: String)
    ensures
        r@ == decimal(n as nat),
{
    let mut rest: u64 = n;
    let mut acc = String::new();
    loop
        invariant
            decimal(n as nat) == decimal(rest as nat) + acc@,
        decreases rest,
    {
        if rest < 10 {
            let d = digit_text(rest);
            assert(decimal(rest as nat) == d@);
            return d.concat(acc.as_str());
        }
        let d = digit_text(rest % 10);
        assert(decimal(rest as nat) == decimal((rest / 10) as nat) + d@);
        assert(decimal((rest / 10) as nat) + (d@ + acc@) =~= decimal(rest as nat) + acc@);
        acc = d.concat(acc.as_str());
        rest = rest / 10;
    }
}

/// The names as a list numbered from 1, one per line.
pub fn numbered_list(names: &Vec<String>) -> (r: String)
    ensures
        r@ == numbered(texts(names@)),
{
    let mut out = String::new();
    let mut i: usize = 0;
    while i < names.len()
        invariant
            i <= names@.len(),
            out@ == numbered(texts(names@.subrange(0, i as int))),
        decreases names.len() - i,
    {
        let ghost done = texts(names@.subrange(0, i as int));
        let ghost next = texts(names@.subrange(0, i + 1));
        assert(next.drop_last() =~= done);
        if i > 0 {
            out.append("\n");
        }
        let number = decimal_text((i + 1) as u64);
        out.append(number.as_str());
        out.append(". ");
        out.append(names[i].as_str());
        assert(out@ =~= numbered(next));
        i = i + 1;
    }
    assert(names@.subrange(0, names@.len() as int) =~= names@);
    out
}

/// Renders the presence report for `date`: when every member is absent, the
/// heading and a single line saying the lab is closed; else an "Absent" and a
/// "Late" section, each a numbered list of its names in order, or a fixed line
/// when it has none.
pub fn render(absent: &Vec<String>, late: &Vec<String>, total_members: usize, date: &ReportDate) -> (r:
    String)
    requires
        date.wf(),
    ensures
        r@ == report_text(texts(absent@), texts(late@), total_members as int, *date),
{
    let mut out = String::from_str("## Presence Report - ");
    let label = format_date(date);
    out.append(label.as_str());
    out.append("\n\n");
    let ghost head = out@;
    assert(head =~= heading(*date));
    if absent.len() == total_members {
        out.append("Uh-oh, seems like the lab is closed today! 🏖️ Everyone is absent!");
        return out;
    }
    if absent.len() == 0 {
        out.append("**Absent**\nNo one is absent today! 🎉\n\n");
    } else {
        out.append("**Absent**\n");
        let list = numbered_list(absent);
        out.append(list.as_str());
        out.append("\n\n");
    }
    let ghost first = section("**Absent**\n"@, texts(absent@), no_absent_note());
    assert(out@ =~= head + first);
    if late.len() == 0 {
        out.append("**Late**\nNo one is late today! 🙌\n\n");
    } else {
        out.append("**Late**\n");
        let list = numbered_list(late);
        out.append(list.as_str());
        out.append("\n\n");
    }
    assert(out@ =~= head + first + section("**Late**\n"@, texts(late@), no_late_note()));
    out
}

} // verus!
