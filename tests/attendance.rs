use lab_attendance::attendance_report;
use lab_attendance::classify::{classify, find_member, is_late, is_no_check_in, Entry};
use lab_attendance::clock::{parse_check_in, whole_seconds, TimeOfDay};
use lab_attendance::report::{decimal_text, numbered_list, render, ReportDate};
use lab_attendance::LabConfig;

fn entry(a: &str, b: &str) -> Entry {
    (a.to_string(), b.to_string())
}

fn roster() -> Vec<Entry> {
    vec![entry("1", "Alex"), entry("2", "Sam"), entry("3", "Kim")]
}

fn cutoff() -> TimeOfDay {
    TimeOfDay::new(17, 40, 0)
}

fn date() -> ReportDate {
    ReportDate::new(2024, 3, 5).unwrap()
}

fn names(v: &[&str]) -> Vec<String> {
    v.iter().map(|s| s.to_string()).collect()
}

#[test]
fn late_member_is_late_not_absent() {
    let c = classify(&roster(), &vec![entry("1", "18:01:02")], &cutoff());
    assert_eq!(c.late, names(&["Alex"]));
    assert!(c.absent.is_empty());
}

#[test]
fn no_check_in_is_absent() {
    let c = classify(&roster(), &vec![entry("2", "00:00:00")], &cutoff());
    assert_eq!(c.absent, names(&["Sam"]));
    assert!(c.late.is_empty());
}

#[test]
fn unknown_id_is_dropped() {
    let records = vec![entry("999", "00:00:00"), entry("999", "19:00:00")];
    let c = classify(&roster(), &records, &cutoff());
    assert!(c.absent.is_empty());
    assert!(c.late.is_empty());
}

#[test]
fn reported_names_are_members_and_disjoint() {
    let records = vec![
        entry("3", "00:00:00"),
        entry("1", "18:01:02"),
        entry("2", "09:15:00"),
        entry("7", "00:00:00"),
    ];
    let c = classify(&roster(), &records, &cutoff());
    assert_eq!(c.absent, names(&["Kim"]));
    assert_eq!(c.late, names(&["Alex"]));
    for n in c.absent.iter() {
        assert!(!c.late.contains(n));
    }
}

#[test]
fn order_follows_records() {
    let records = vec![
        entry("3", "18:30:00"),
        entry("1", "18:01:02.123456"),
        entry("2", "00:00:00"),
    ];
    let c = classify(&roster(), &records, &cutoff());
    assert_eq!(c.late, names(&["Kim", "Alex"]));
    assert_eq!(c.absent, names(&["Sam"]));
}

#[test]
fn cutoff_itself_is_on_time() {
    let records = vec![entry("1", "17:40:00"), entry("2", "17:40:01")];
    let c = classify(&roster(), &records, &cutoff());
    assert_eq!(c.late, names(&["Sam"]));
}

#[test]
fn unreadable_time_counts_as_present() {
    let records = vec![entry("1", "late"), entry("2", "25:00:00"), entry("3", "")];
    let c = classify(&roster(), &records, &cutoff());
    assert!(c.absent.is_empty());
    assert!(c.late.is_empty());
}

#[test]
fn everyone_absent_closes_the_lab() {
    let records = vec![entry("1", "00:00:00"), entry("2", "00:00:00"), entry("3", "00:00:00")];
    let text = attendance_report(&roster(), &records, &cutoff(), &date());
    assert_eq!(
        text,
        "## Presence Report - March 05, 2024\n\nUh-oh, seems like the lab is closed today! 🏖️ Everyone is absent!"
    );
}

#[test]
fn nobody_missing_gives_both_notes() {
    let records = vec![entry("1", "09:00:00"), entry("2", "17:40:00.5"), entry("3", "12:00:00")];
    let text = attendance_report(&roster(), &records, &cutoff(), &date());
    assert_eq!(
        text,
        "## Presence Report - March 05, 2024\n\n**Absent**\nNo one is absent today! 🎉\n\n**Late**\nNo one is late today! 🙌\n\n"
    );
}

#[test]
fn report_lists_names_numbered() {
    let records = vec![
        entry("2", "00:00:00"),
        entry("1", "18:01:02"),
        entry("3", "19:00:00"),
    ];
    let text = attendance_report(&roster(), &records, &cutoff(), &date());
    assert_eq!(
        text,
        "## Presence Report - March 05, 2024\n\n**Absent**\n1. Sam\n\n**Late**\n1. Alex\n2. Kim\n\n"
    );
}

#[test]
fn render_keeps_duplicates() {
    let text = render(&names(&["Sam", "Sam"]), &names(&[]), 5, &date());
    assert_eq!(
        text,
        "## Presence Report - March 05, 2024\n\n**Absent**\n1. Sam\n2. Sam\n\n**Late**\nNo one is late today! 🙌\n\n"
    );
}

#[test]
fn render_is_deterministic() {
    let d = ReportDate::new(1999, 12, 31).unwrap();
    let a = names(&["Sam"]);
    let l = names(&["Alex", "Kim"]);
    let first = render(&a, &l, 3, &d);
    let second = render(&a, &l, 3, &d);
    assert_eq!(first, second);
    assert!(first.starts_with("## Presence Report - December 31, 1999\n\n"));
}

#[test]
fn empty_roster_is_closed() {
    let text = render(&names(&[]), &names(&[]), 0, &date());
    assert!(text.ends_with("Everyone is absent!"));
}

#[test]
fn date_label_pads_day_and_year() {
    let d = ReportDate::new(987, 1, 9).unwrap();
    let text = render(&names(&[]), &names(&[]), 0, &d);
    assert!(text.starts_with("## Presence Report - January 09, 0987\n\n"));
}

#[test]
fn report_date_rejects_impossible_dates() {
    assert!(ReportDate::new(2023, 2, 29).is_none());
    assert!(ReportDate::new(2024, 2, 29).is_some());
    assert!(ReportDate::new(1900, 2, 29).is_none());
    assert!(ReportDate::new(2000, 2, 29).is_some());
    assert!(ReportDate::new(2024, 4, 31).is_none());
    assert!(ReportDate::new(2024, 13, 1).is_none());
    assert!(ReportDate::new(2024, 1, 0).is_none());
    assert!(ReportDate::new(10000, 1, 1).is_none());
    assert!(ReportDate::new(-1, 1, 1).is_none());
}

#[test]
fn numbered_list_counts_past_nine() {
    let list: Vec<String> = (0..11).map(|i| format!("m{}", i)).collect();
    let text = numbered_list(&list);
    assert!(text.starts_with("1. m0\n2. m1\n"));
    assert!(text.ends_with("\n10. m9\n11. m10"));
    assert_eq!(numbered_list(&names(&[])), "");
}

#[test]
fn decimal_text_writes_digits() {
    assert_eq!(decimal_text(0), "0");
    assert_eq!(decimal_text(7), "7");
    assert_eq!(decimal_text(10), "10");
    assert_eq!(decimal_text(12345), "12345");
}

#[test]
fn check_in_reads_time_before_fraction() {
    assert_eq!(whole_seconds("18:01:02.999"), "18:01:02");
    assert_eq!(whole_seconds("18:01:02"), "18:01:02");
    assert_eq!(whole_seconds(".5"), "");
    assert_eq!(parse_check_in("18:01:02.999"), Some(TimeOfDay::new(18, 1, 2)));
    assert_eq!(parse_check_in("07:05:09"), Some(TimeOfDay::new(7, 5, 9)));
    assert_eq!(parse_check_in("24:00:00"), None);
    assert_eq!(parse_check_in("noon"), None);
}

#[test]
fn lateness_compares_with_cutoff() {
    let c = cutoff();
    assert!(is_late(Some(TimeOfDay::new(17, 40, 1)), &c));
    assert!(!is_late(Some(TimeOfDay::new(17, 40, 0)), &c));
    assert!(!is_late(Some(TimeOfDay::new(8, 0, 0)), &c));
    assert!(!is_late(None, &c));
    assert!(TimeOfDay::new(18, 0, 0).is_after(&c));
    assert_eq!(TimeOfDay::new(1, 2, 3).seconds_of_day(), 3723);
}

#[test]
fn sentinel_is_recognised() {
    assert!(is_no_check_in(&"00:00:00".to_string()));
    assert!(!is_no_check_in(&"00:00:00.0".to_string()));
    assert!(!is_no_check_in(&"00:00:01".to_string()));
}

#[test]
fn member_lookup_takes_first_match() {
    let r = vec![entry("1", "Alex"), entry("1", "Other")];
    assert_eq!(find_member(&r, &"1".to_string()), Some("Alex".to_string()));
    assert_eq!(find_member(&r, &"2".to_string()), None);
}

#[test]
fn config_cutoff_is_on_the_minute() {
    let cfg = LabConfig::new(42, 17, 40);
    assert_eq!(cfg.cutoff(), TimeOfDay::new(17, 40, 0));
    assert_eq!(cfg.channel_id, 42);
}

#[test]
fn reports_fit_the_roster() {
    let records = vec![
        entry("1", "00:00:00"),
        entry("2", "18:00:00"),
        entry("3", "00:00:00"),
        entry("8", "00:00:00"),
        entry("9", "19:00:00"),
    ];
    let c = classify(&roster(), &records, &cutoff());
    assert_eq!(c.absent, names(&["Alex", "Kim"]));
    assert_eq!(c.late, names(&["Sam"]));
    assert!(c.absent.len() + c.late.len() <= roster().len());
}
