use mindvault::dates::{first_readable, parse_date_literal, parse_day_month_year};
use mindvault::model::{convert_due_date, CivilDate, Timestamp};

const JULY_27_2025: i32 = 739_459;

#[test]
fn every_accepted_format_reads_the_same_day() {
    for literal in [
        "2025-07-27",
        "07/27/2025",
        "27/07/2025",
        "07-27-2025",
        "27-07-2025",
        "2025/07/27",
    ] {
        assert_eq!(
            parse_date_literal(literal),
            Some(CivilDate { days_from_ce: JULY_27_2025 }),
            "{}",
            literal
        );
    }
}

#[test]
fn earlier_format_wins_on_ambiguous_input() {
    // month/day is tried before day/month
    assert_eq!(
        parse_date_literal("03/04/2025"),
        parse_date_literal("2025-03-04")
    );
}

#[test]
fn two_digit_year_is_read_by_four_digit_format_first() {
    // day/month/full-year is tried before day/month/short-year and accepts "25"
    assert_eq!(parse_date_literal("27/07/25"), parse_date_literal("0025-07-27"));
    assert_eq!(
        parse_date_literal("27/07/25"),
        Some(CivilDate { days_from_ce: 8_974 })
    );
}

#[test]
fn surrounding_whitespace_is_ignored() {
    assert_eq!(
        parse_date_literal("  2025-07-27\n"),
        Some(CivilDate { days_from_ce: JULY_27_2025 })
    );
}

#[test]
fn unreadable_date_is_none() {
    assert_eq!(parse_date_literal("yesterday"), None);
    assert_eq!(parse_date_literal("2025-02-30"), None);
    assert_eq!(parse_date_literal(""), None);
}

#[test]
fn day_month_year_only() {
    assert_eq!(
        parse_day_month_year("27-07-2025"),
        Some(CivilDate { days_from_ce: JULY_27_2025 })
    );
    assert_eq!(parse_day_month_year("2025-07-27"), None);
}

#[test]
fn epoch_day_is_midnight_zero() {
    let epoch = parse_date_literal("1970-01-01").unwrap();
    assert_eq!(epoch.days_from_ce, 719_163);
    assert_eq!(epoch.midnight_utc(), Timestamp { millis: 0 });
    assert_eq!(epoch.next_midnight_utc(), Timestamp { millis: 86_400_000 });
}

#[test]
fn due_date_is_stored_at_midnight_utc() {
    let d = CivilDate { days_from_ce: JULY_27_2025 };
    assert_eq!(
        convert_due_date(Some(d)),
        Some(Timestamp { millis: 1_753_574_400_000 })
    );
    assert_eq!(convert_due_date(None), None);
}

#[test]
fn first_readable_candidate_wins() {
    let a = CivilDate { days_from_ce: 10 };
    let b = CivilDate { days_from_ce: 20 };
    assert_eq!(first_readable(&vec![None, Some(a), Some(b)]), Some(a));
    assert_eq!(first_readable(&vec![Some(b), Some(a)]), Some(b));
    assert_eq!(first_readable(&vec![None, None]), None);
    assert_eq!(first_readable(&vec![]), None);
}
