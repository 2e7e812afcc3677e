//! Sorting the day's check-ins into absent and late members.
use vstd::prelude::*;
use vstd::string::*;
use crate::clock::{check_in_time, no_check_in, parse_check_in, TimeOfDay};

verus! {

/// A roster entry or an attendance record: an id and a second text, the
/// member's name in a roster, the raw check-in time in an attendance record.
pub type Entry = (String, String);

/// The display names of a list of texts.
pub open spec fn texts(v: Seq<String>) -> Seq<Seq<char>> {
    v.map_values(|s: String| s@)
}

/// `k` is the first roster position whose id is `id`.
pub open spec fn is_first_with_id(roster: Seq<Entry>, id: Seq<char>, k: int) -> bool {
    &&& 0 <= k < roster.len()
    &&& roster[k].0@ == id
    &&& forall|j: int| 0 <= j < k ==> roster[j].0@ != id
}

/// Whether some roster entry has id `id`.
pub open spec fn has_id(roster: Seq<Entry>, id: Seq<char>) -> bool {
    exists|k: int| 0 <= k < roster.len() && roster[k].0@ == id
}

/// The name of the first roster member with id `id`.
pub open spec fn name_of(roster: Seq<Entry>, id: Seq<char>) -> Seq<char> {
    roster[choose|k: int| is_first_with_id(roster, id, k)].1@
}

/// The record reports its member absent.
pub open spec fn counts_absent(roster: Seq<Entry>, rec: Entry) -> bool {
    has_id(roster, rec.0@) && rec.1@ == no_check_in()
}

/// The record's check-in reads as a time strictly after the cutoff.
pub open spec fn checked_in_late(check_in: Seq<char>, cutoff: TimeOfDay) -> bool {
    check_in != no_check_in() && match check_in_time(check_in) {
        Some(t) => t.seconds() > cutoff.seconds(),
        None => false,
    }
}

/// The record reports its member late.
pub open spec fn counts_late(roster: Seq<Entry>, rec: Entry, cutoff: TimeOfDay) -> bool {
    has_id(roster, rec.0@) && checked_in_late(rec.1@, cutoff)
}

/// The names reported absent, in the order of the records.
pub open spec fn absent_names(roster: Seq<Entry>, records: Seq<Entry>) -> Seq<Seq<char>>
    decreases records.len(),
{
    if records.len() == 0 {
        Seq::empty()
    } else {
        let prev = absent_names(roster, records.drop_last());
        let rec = records.last();
        if counts_absent(roster, rec) {
            prev.push(name_of(roster, rec.0@))
        } else {
            prev
        }
    }
}

/// The names reported late, in the order of the records.
pub open spec fn late_names(roster: Seq<Entry>, records: Seq<Entry>, cutoff: TimeOfDay) -> Seq<
    Seq<char>,
>
    decreases records.len(),
{
    if records.len() == 0 {
        Seq::empty()
    } else {
        let prev = late_names(roster, records.drop_last(), cutoff);
        let rec = records.last();
        if counts_late(roster, rec, cutoff) {
            prev.push(name_of(roster, rec.0@))
        } else {
            prev
        }
    }
}

/// The outcome of a day: who was absent and who came in late.
pub struct Classification {
    pub absent: Vec<String>,
    pub late: Vec<String>,
}

proof fn lemma_first_unique(roster: Seq<Entry>, id: Seq<char>, k: int)
    requires
        is_first_with_id(roster, id, k),
    ensures
        name_of(roster, id) == roster[k].1@,
{
    let c = choose|c: int| is_first_with_id(roster, id, c);
    assert(is_first_with_id(roster, id, c));
    if c < k {
        assert(roster[c].0@ != id);
    } else if k < c {
        assert(roster[k].0@ != id);
    }
}

/// Finds the name of the first roster member with id `id`.
pub fn find_member(roster: &Vec<Entry>, id: &String) -> (r: Option<String>)
    ensures
        r is Some <==> has_id(roster@, id@),
        r matches Some(name) ==> name@ == name_of(roster@, id@),
{
    let mut k: usize = 0;
    while k < roster.len()
        invariant
            k <= roster@.len(),
            forall|j: int| 0 <= j < k ==> roster@[j].0@ != id@,
        decreases roster.len() - k,
    {
        if roster[k].0 == *id {
            proof {
                lemma_first_unique(roster@, id@, k as int);
            }
            return Some(roster[k].1.clone());
        }
        k = k + 1;
    }
    None
}

/// Whether a check-in that read as `check_in` falls after the cutoff.
pub fn is_late(check_in: Option<TimeOfDay>, cutoff: &TimeOfDay) -> (r: bool)
    ensures
        r == match check_in {
            Some(t) => t.seconds() > cutoff.seconds(),
            None => false,
        },
{
    match check_in {
        Some(t) => t.is_after(cutoff),
        None => false,
    }
}

/// Whether a raw check-in string records that the member did not come in.
pub fn is_no_check_in(check_in: &String) -> (r: bool)
    ensures
        r == (check_in@ == no_check_in()),
{
    let sentinel = String::from_str("00:00:00");
    *check_in == sentinel
}

/// Whether a raw check-in string reads as a time after the cutoff.
pub fn checks_in_late(check_in: &String, cutoff: &TimeOfDay) -> (r: bool)
    ensures
        r == checked_in_late(check_in@, *cutoff),
{
    if is_no_check_in(check_in) {
        false
    } else {
        is_late(parse_check_in(check_in.as_str()), cutoff)
    }
}

/// Sorts the day's attendance records against the roster: a record whose
/// check-in is "00:00:00" reports its member absent, one whose time reads as
/// after `cutoff` reports its member late. Records whose id is not on the
/// roster, and times that do not read, report nothing.
pub fn classify(members: &Vec<Entry>, attendance: &Vec<Entry>, cutoff: &TimeOfDay) -> (r:
    Classification)
    ensures
        texts(r.absent@) == absent_names(members@, attendance@),
        texts(r.late@) == late_names(members@, attendance@, *cutoff),
{
    let mut absent: Vec<String> = Vec::new();
    let mut late: Vec<String> = Vec::new();
    let mut i: usize = 0;
    while i < attendance.len()
        invariant
            i <= attendance@.len(),
            texts(absent@) == absent_names(members@, attendance@.subrange(0, i as int)),
            texts(late@) == late_names(members@, attendance@.subrange(0, i as int), *cutoff),
        decreases attendance.len() - i,
    {
        let rec = &attendance[i];
        let ghost done = attendance@.subrange(0, i as int);
        let ghost next = attendance@.subrange(0, i + 1);
        assert(next.drop_last() =~= done);
        assert(next.last() == attendance@[i as int]);
        if is_no_check_in(&rec.1) {
            if let Some(name) = find_member(members, &rec.0) {
                absent.push(name);
            }
        } else if checks_in_late(&rec.1, cutoff) {
            if let Some(name) = find_member(members, &rec.0) {
                late.push(name);
            }
        }
        assert(texts(absent@) =~= absent_names(members@, next));
        assert(texts(late@) =~= late_names(members@, next, *cutoff));
        i = i + 1;
    }
    assert(attendance@.subrange(0, attendance@.len() as int) =~= attendance@);
    Classification { absent, late }
}

} // verus!
