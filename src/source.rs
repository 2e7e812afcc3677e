//! The roster and the day's attendance records, built from what the data
//! source's JSON answers hold.
use vstd::prelude::*;
use vstd::string::*;
use crate::classify::Entry;
use crate::report::{decimal, decimal_text};

verus! {

/// `n` in decimal, with a minus sign when it is negative.
pub open spec fn signed_decimal(n: int) -> Seq<char> {
    if n < 0 {
        "-"@ + decimal((-n) as nat)
    } else {
        decimal(n as nat)
    }
}

/// `n` written in decimal, with a minus sign when it is negative.
pub fn signed_decimal_text(n: i64) -> (r: String)
    ensures
        r@ == signed_decimal(n as int),
{
    if n < 0 {
        let magnitude: u64 = (0i128 - n as i128) as u64;
        let digits = decimal_text(magnitude);
        String::from_str("-").concat(digits.as_str())
    } else {
        decimal_text(n as u64)
    }
}

/// The text of an optional string, or the empty text.
pub open spec fn text_or_empty(s: Option<Seq<char>>) -> Seq<char> {
    match s {
        Some(t) => t,
        None => Seq::empty(),
    }
}

/// A roster entry from what a member object held: the id in decimal, or empty
/// when it was no integer; the name, or empty when it was no string.
pub fn member_entry(id: Option<i64>, name: Option<&str>) -> (r: Entry)
    ensures
        r.0@ == match id {
            Some(n) => signed_decimal(n as int),
            None => Seq::empty(),
        },
        r.1@ == text_or_empty(
            match name {
                Some(s) => Some(s@),
                None => None,
            },
        ),
{
    let id_text = match id {
        Some(n) => signed_decimal_text(n),
        None => String::new(),
    };
    let name_text = match name {
        Some(s) => String::from_str(s),
        None => String::new(),
    };
    (id_text, name_text)
}

/// An attendance record from what a record object held: the id as JSON text,
/// and the check-in time, or empty when it was no string.
pub fn attendance_entry(id_json: String, timein: Option<&str>) -> (r: Entry)
    ensures
        r.0@ == id_json@,
        r.1@ == text_or_empty(
            match timein {
                Some(s) => Some(s@),
                None => None,
            },
        ),
{
    let timein_text = match timein {
        Some(s) => String::from_str(s),
        None => String::new(),
    };
    (id_json, timein_text)
}

/// The text a member id is written as: the integer in decimal, or empty.
pub open spec fn id_text(id: Option<i64>) -> Seq<char> {
    match id {
        Some(n) => signed_decimal(n as int),
        None => Seq::empty(),
    }
}

/// The view of an optional text.
pub open spec fn opt_view(s: Option<String>) -> Option<Seq<char>> {
    match s {
        Some(t) => Some(t@),
        None => None,
    }
}

fn as_opt_str(s: &Option<String>) -> (r: Option<&str>)
    ensures
        match r {
            Some(t) => Some(t@),
            None => None,
        } == opt_view(*s),
{
    match s {
        Some(t) => Some(t.as_str()),
        None => None,
    }
}

/// The roster from the members answer, given for each item of its
/// `data.getMember` array the item's integer id and its name text, where
/// they are such; `None` where that array is missing.
pub fn members_from_json(fields: &Option<Vec<(Option<i64>, Option<String>)>>) -> (r: Option<
    Vec<Entry>,
>)
    ensures
        r is Some <==> fields is Some,
        r matches Some(v) ==> {
            &&& v@.len() == fields->0@.len()
            &&& forall|i: int|
                0 <= i < v@.len() ==> (#[trigger] v@[i]).0@ == id_text(fields->0@[i].0) && v@[i].1@
                    == text_or_empty(opt_view(fields->0@[i].1))
        },
{
    match fields {
        None => None,
        Some(list) => {
            let mut out: Vec<Entry> = Vec::new();
            let mut i: usize = 0;
            while i < list.len()
                invariant
                    i <= list@.len(),
                    out@.len() == i,
                    forall|j: int|
                        0 <= j < i ==> (#[trigger] out@[j]).0@ == id_text(list@[j].0) && out@[j].1@
                            == text_or_empty(opt_view(list@[j].1)),
                decreases list.len() - i,
            {
                let item = &list[i];
                out.push(member_entry(item.0, as_opt_str(&item.1)));
                i = i + 1;
            }
            Some(out)
        },
    }
}

/// The day's records from the attendance answer, given for each item of its
/// `data.getAttendance` array the item's id written as JSON and its check-in
/// text, where it is one; `None` where that array is missing.
pub fn attendance_from_json(fields: &Option<Vec<(String, Option<String>)>>) -> (r: Option<
    Vec<Entry>,
>)
    ensures
        r is Some <==> fields is Some,
        r matches Some(v) ==> {
            &&& v@.len() == fields->0@.len()
            &&& forall|i: int|
                0 <= i < v@.len() ==> (#[trigger] v@[i]).0@ == fields->0@[i].0@ && v@[i].1@
                    == text_or_empty(opt_view(fields->0@[i].1))
        },
{
    match fields {
        None => None,
        Some(list) => {
            let mut out: Vec<Entry> = Vec::new();
            let mut i: usize = 0;
            while i < list.len()
                invariant
                    i <= list@.len(),
                    out@.len() == i,
                    forall|j: int|
                        0 <= j < i ==> (#[trigger] out@[j]).0@ == list@[j].0@ && out@[j].1@
                            == text_or_empty(opt_view(list@[j].1)),
                decreases list.len() - i,
            {
                let item = &list[i];
                out.push(attendance_entry(item.0.clone(), as_opt_str(&item.1)));
                i = i + 1;
            }
            Some(out)
        },
    }
}

} // verus!
