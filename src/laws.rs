//! What holds of every day's classification and report.
use vstd::prelude::*;
use vstd::set_lib::lemma_len_subset;
use crate::classify::{
    absent_names, counts_absent, counts_late, has_id, is_first_with_id, late_names, name_of, Entry,
};
use crate::clock::{check_in_time, no_check_in, TimeOfDay};
use crate::report::{
    closed_note, heading, no_absent_note, no_late_note, report_text, ReportDate,
};

verus! {

proof fn lemma_first_exists(roster: Seq<Entry>, id: Seq<char>)
    requires
        has_id(roster, id),
    ensures
        exists|k: int| is_first_with_id(roster, id, k),
    decreases roster.len(),
{
    let prefix = roster.drop_last();
    if has_id(prefix, id) {
        lemma_first_exists(prefix, id);
        let k = choose|k: int| is_first_with_id(prefix, id, k);
        assert(roster[k] == prefix[k]);
        assert forall|j: int| 0 <= j < k implies roster[j].0@ != id by {
            assert(roster[j] == prefix[j]);
        }
        assert(is_first_with_id(roster, id, k));
    } else {
        let k = roster.len() - 1;
        assert forall|j: int| 0 <= j < k implies roster[j].0@ != id by {
            if roster[j].0@ == id {
                assert(prefix[j].0@ == id);
            }
        }
        assert(is_first_with_id(roster, id, k));
    }
}

proof fn lemma_name_is_member(roster: Seq<Entry>, id: Seq<char>)
    requires
        has_id(roster, id),
    ensures
        exists|k: int| 0 <= k < roster.len() && roster[k].0@ == id && roster[k].1@ == name_of(roster, id),
{
    lemma_first_exists(roster, id);
    let k = choose|k: int| is_first_with_id(roster, id, k);
    assert(is_first_with_id(roster, id, k));
}

/// A record's member is named on the roster under the record's id.
pub open spec fn names_member(roster: Seq<Entry>, name: Seq<char>) -> bool {
    exists|k: int| 0 <= k < roster.len() && roster[k].1@ == name
}

/// Every name reported absent or late is the name of a roster member; no
/// record reports its member both absent and late, so the two lists together
/// are no longer than the records; and where the records' ids are distinct,
/// no id is reported both absent and late.
pub proof fn lemma_reports_are_disjoint_members(
    roster: Seq<Entry>,
    records: Seq<Entry>,
    cutoff: TimeOfDay,
)
    ensures
        forall|i: int|
            0 <= i < absent_names(roster, records).len() ==> names_member(
                roster,
                #[trigger] absent_names(roster, records)[i],
            ),
        forall|i: int|
            0 <= i < late_names(roster, records, cutoff).len() ==> names_member(
                roster,
                #[trigger] late_names(roster, records, cutoff)[i],
            ),
        forall|rec: Entry| !(counts_absent(roster, rec) && #[trigger] counts_late(roster, rec, cutoff)),
        absent_names(roster, records).len() + late_names(roster, records, cutoff).len()
            <= records.len(),
        (forall|i: int, j: int|
            0 <= i < j < records.len() ==> #[trigger] records[i].0@ != #[trigger] records[j].0@)
            ==> forall|i: int, j: int|
            0 <= i < records.len() && 0 <= j < records.len() && counts_absent(
                roster,
                #[trigger] records[i],
            ) && counts_late(roster, #[trigger] records[j], cutoff) ==> records[i].0@
                != records[j].0@,
    decreases records.len(),
{
    if records.len() > 0 {
        let prefix = records.drop_last();
        lemma_reports_are_disjoint_members(roster, prefix, cutoff);
        let rec = records.last();
        if has_id(roster, rec.0@) {
            lemma_name_is_member(roster, rec.0@);
        }
        let a = absent_names(roster, records);
        let l = late_names(roster, records, cutoff);
        assert forall|i: int| 0 <= i < a.len() implies names_member(roster, #[trigger] a[i]) by {
            if i < absent_names(roster, prefix).len() {
                assert(a[i] == absent_names(roster, prefix)[i]);
            } else {
                let k = choose|k: int|
                    0 <= k < roster.len() && roster[k].0@ == rec.0@ && roster[k].1@ == name_of(
                        roster,
                        rec.0@,
                    );
                assert(roster[k].1@ == a[i]);
            }
        }
        assert forall|i: int| 0 <= i < l.len() implies names_member(roster, #[trigger] l[i]) by {
            if i < late_names(roster, prefix, cutoff).len() {
                assert(l[i] == late_names(roster, prefix, cutoff)[i]);
            } else {
                let k = choose|k: int|
                    0 <= k < roster.len() && roster[k].0@ == rec.0@ && roster[k].1@ == name_of(
                        roster,
                        rec.0@,
                    );
                assert(roster[k].1@ == l[i]);
            }
        }
    }
}

/// The ids of the records that report their member absent or late, in order.
pub open spec fn reported_ids(roster: Seq<Entry>, records: Seq<Entry>, cutoff: TimeOfDay) -> Seq<
    Seq<char>,
>
    decreases records.len(),
{
    if records.len() == 0 {
        Seq::empty()
    } else {
        let prev = reported_ids(roster, records.drop_last(), cutoff);
        let rec = records.last();
        if counts_absent(roster, rec) || counts_late(roster, rec, cutoff) {
            prev.push(rec.0@)
        } else {
            prev
        }
    }
}

/// The ids on the roster.
pub open spec fn roster_ids(roster: Seq<Entry>) -> Seq<Seq<char>> {
    roster.map_values(|e: Entry| e.0@)
}

proof fn lemma_reported_ids(roster: Seq<Entry>, records: Seq<Entry>, cutoff: TimeOfDay)
    requires
        forall|i: int, j: int|
            0 <= i < j < records.len() ==> #[trigger] records[i].0@ != #[trigger] records[j].0@,
    ensures
        reported_ids(roster, records, cutoff).len() == absent_names(roster, records).len()
            + late_names(roster, records, cutoff).len(),
        reported_ids(roster, records, cutoff).no_duplicates(),
        forall|x: Seq<char>|
            #[trigger] reported_ids(roster, records, cutoff).contains(x) ==> has_id(roster, x) && exists|
                i: int,
            | 0 <= i < records.len() && records[i].0@ == x,
    decreases records.len(),
{
    if records.len() > 0 {
        let prefix = records.drop_last();
        assert forall|i: int, j: int|
            0 <= i < j < prefix.len() implies #[trigger] prefix[i].0@ != #[trigger] prefix[j].0@ by {
            assert(prefix[i] == records[i] && prefix[j] == records[j]);
        }
        lemma_reported_ids(roster, prefix, cutoff);
        lemma_reports_are_disjoint_members(roster, records, cutoff);
        let prev = reported_ids(roster, prefix, cutoff);
        let rec = records.last();
        let n = records.len() - 1;
        assert(records[n] == rec);
        assert forall|x: Seq<char>| prev.contains(x) implies x != rec.0@ by {
            let i = choose|i: int| 0 <= i < prefix.len() && prefix[i].0@ == x;
            assert(prefix[i] == records[i]);
            assert(records[i].0@ != records[n].0@);
        }
        let cur = reported_ids(roster, records, cutoff);
        if cur.len() > prev.len() {
            assert forall|i: int, j: int| 0 <= i < cur.len() && 0 <= j < cur.len() && i != j implies cur[i]
                != cur[j] by {
                if i < prev.len() && j < prev.len() {
                    assert(cur[i] == prev[i] && cur[j] == prev[j]);
                } else if i < prev.len() {
                    assert(prev.contains(prev[i]));
                } else {
                    assert(prev.contains(prev[j]));
                }
            }
        }
        assert forall|x: Seq<char>| cur.contains(x) implies has_id(roster, x) && exists|i: int|
            0 <= i < records.len() && records[i].0@ == x by {
            if prev.contains(x) {
                let i = choose|i: int| 0 <= i < prefix.len() && prefix[i].0@ == x;
                assert(prefix[i] == records[i]);
            } else {
                assert(records[n].0@ == x);
            }
        }
    }
}

/// Where the records' ids are distinct, the names reported absent and late
/// together are no more than the roster's members.
pub proof fn lemma_reports_fit_roster(roster: Seq<Entry>, records: Seq<Entry>, cutoff: TimeOfDay)
    requires
        forall|i: int, j: int|
            0 <= i < j < records.len() ==> #[trigger] records[i].0@ != #[trigger] records[j].0@,
    ensures
        absent_names(roster, records).len() + late_names(roster, records, cutoff).len()
            <= roster.len(),
{
    lemma_reported_ids(roster, records, cutoff);
    let ids = reported_ids(roster, records, cutoff);
    let all = roster_ids(roster);
    ids.unique_seq_to_set();
    all.lemma_cardinality_of_set();
    assert forall|x: Seq<char>| ids.to_set().contains(x) implies all.to_set().contains(x) by {
        assert(ids.contains(x));
        assert(has_id(roster, x));
        let k = choose|k: int| 0 <= k < roster.len() && roster[k].0@ == x;
        assert(all.len() == roster.len());
        assert(all[k] == x);
        assert(all.contains(x));
    }
    lemma_len_subset(ids.to_set(), all.to_set());
}

/// When each roster member has one record and every record says the member
/// did not check in, every member is reported absent and the report is the
/// heading followed by the note that the lab is closed.
pub proof fn lemma_everyone_absent_closes_the_lab(
    roster: Seq<Entry>,
    records: Seq<Entry>,
    cutoff: TimeOfDay,
    date: ReportDate,
)
    requires
        records.len() == roster.len(),
        forall|i: int|
            0 <= i < records.len() ==> (#[trigger] records[i]).1@ == no_check_in() && has_id(
                roster,
                records[i].0@,
            ),
    ensures
        absent_names(roster, records).len() == roster.len(),
        report_text(
            absent_names(roster, records),
            late_names(roster, records, cutoff),
            roster.len() as int,
            date,
        ) == heading(date) + closed_note(),
{
    lemma_all_absent_len(roster, records);
}

proof fn lemma_all_absent_len(roster: Seq<Entry>, records: Seq<Entry>)
    requires
        forall|i: int|
            0 <= i < records.len() ==> (#[trigger] records[i]).1@ == no_check_in() && has_id(
                roster,
                records[i].0@,
            ),
    ensures
        absent_names(roster, records).len() == records.len(),
    decreases records.len(),
{
    if records.len() > 0 {
        let prefix = records.drop_last();
        assert forall|i: int| 0 <= i < prefix.len() implies (#[trigger] prefix[i]).1@
            == no_check_in() && has_id(roster, prefix[i].0@) by {
            assert(prefix[i] == records[i]);
        }
        lemma_all_absent_len(roster, prefix);
        assert(records[records.len() - 1] == records.last());
        assert(counts_absent(roster, records.last()));
    }
}

/// When no record says its member did not check in and no check-in reads as
/// a time after the cutoff, nobody is reported absent or late, and a report
/// over a roster that is not empty holds both notes that nobody is missing.
pub proof fn lemma_nobody_missing(
    roster: Seq<Entry>,
    records: Seq<Entry>,
    cutoff: TimeOfDay,
    date: ReportDate,
)
    requires
        roster.len() > 0,
        forall|i: int|
            0 <= i < records.len() ==> (#[trigger] records[i]).1@ != no_check_in() && match check_in_time(records[i].1@) {
                Some(t) => t.seconds() <= cutoff.seconds(),
                None => true,
            },
    ensures
        absent_names(roster, records).len() == 0,
        late_names(roster, records, cutoff).len() == 0,
        report_text(
            absent_names(roster, records),
            late_names(roster, records, cutoff),
            roster.len() as int,
            date,
        ) == heading(date) + no_absent_note() + no_late_note(),
    decreases records.len(),
{
    if records.len() > 0 {
        let prefix = records.drop_last();
        assert forall|i: int| 0 <= i < prefix.len() implies (#[trigger] prefix[i]).1@ != no_check_in()
            && match check_in_time(prefix[i].1@) {
            Some(t) => t.seconds() <= cutoff.seconds(),
            None => true,
        } by {
            assert(prefix[i] == records[i]);
        }
        lemma_nobody_missing(roster, prefix, cutoff, date);
        assert(records[records.len() - 1] == records.last());
    }
    assert(heading(date) + (no_absent_note() + no_late_note()) =~= heading(date) + no_absent_note()
        + no_late_note());
}

/// The report is a function of its inputs: two renderings of the same lists,
/// member count and date are the same text.
pub proof fn lemma_render_deterministic(
    absent: Seq<Seq<char>>,
    late: Seq<Seq<char>>,
    total_members: int,
    date: ReportDate,
    first: Seq<char>,
    second: Seq<char>,
)
    requires
        first == report_text(absent, late, total_members, date),
        second == report_text(absent, late, total_members, date),
    ensures
        first == second,
{
}

} // verus!
