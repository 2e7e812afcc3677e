use lab_attendance::source::{
    attendance_entry, attendance_from_json, member_entry, members_from_json, signed_decimal_text,
};

fn entry(a: &str, b: &str) -> (String, String) {
    (a.to_string(), b.to_string())
}

fn text(s: &str) -> Option<String> {
    Some(s.to_string())
}

#[test]
fn members_are_read_from_answer() {
    let fields = Some(vec![
        (Some(1), text("Alex")),
        (Some(22), text("Sam")),
        (None, text("NoId")),
        (Some(3), None),
    ]);
    assert_eq!(
        members_from_json(&fields),
        Some(vec![entry("1", "Alex"), entry("22", "Sam"), entry("", "NoId"), entry("3", "")])
    );
}

#[test]
fn members_missing_array_is_none() {
    assert_eq!(members_from_json(&None), None);
    assert_eq!(members_from_json(&Some(vec![])), Some(vec![]));
}

#[test]
fn attendance_is_read_from_answer() {
    let fields = Some(vec![
        ("1".to_string(), text("18:01:02.5")),
        ("\"2\"".to_string(), text("00:00:00")),
        ("null".to_string(), None),
    ]);
    assert_eq!(
        attendance_from_json(&fields),
        Some(vec![entry("1", "18:01:02.5"), entry("\"2\"", "00:00:00"), entry("null", "")])
    );
}

#[test]
fn attendance_missing_array_is_none() {
    assert_eq!(attendance_from_json(&None), None);
}

#[test]
fn member_entry_defaults_to_empty() {
    assert_eq!(member_entry(Some(-5), Some("Kim")), entry("-5", "Kim"));
    assert_eq!(member_entry(None, None), entry("", ""));
    assert_eq!(attendance_entry("9".to_string(), None), entry("9", ""));
}

#[test]
fn signed_decimal_covers_extremes() {
    assert_eq!(signed_decimal_text(0), "0");
    assert_eq!(signed_decimal_text(-42), "-42");
    assert_eq!(signed_decimal_text(i64::MAX), "9223372036854775807");
    assert_eq!(signed_decimal_text(i64::MIN), "-9223372036854775808");
}
