use chrono::Datelike;
use report_check::date::{compute_week, get_current_week, parse_start_date, Date};
use report_check::digits::week_field_exec;
use report_check::lookup::{classify_reply, ApiReply, LookupOutcome};
use report_check::path::{get_file_path, repository_name};

fn date_of(y: i32, m: u32, d: u32) -> Date {
    let day = chrono::NaiveDate::from_ymd_opt(y, m, d)
        .unwrap()
        .num_days_from_ce() as i64;
    Date::from_day_number(day).unwrap()
}

#[test]
fn path_for_two_token_name() {
    let name = String::from("Jane Doe");
    let dir = String::from("dir");
    assert_eq!(
        get_file_path(&name, &dir, 5),
        Some(String::from("dir/AN_Doe_Jane_005.pdf"))
    );
}

#[test]
fn path_ignores_middle_tokens() {
    let name = String::from("Jane Middle Doe");
    let dir = String::from("dir");
    assert_eq!(
        get_file_path(&name, &dir, 5),
        Some(String::from("dir/AN_Doe_Jane_005.pdf"))
    );
}

#[test]
fn path_rejects_single_token_name() {
    let name = String::from("Jane");
    let dir = String::from("dir");
    assert_eq!(get_file_path(&name, &dir, 5), None);
}

#[test]
fn path_rejects_empty_and_blank_names() {
    let dir = String::from("dir");
    assert_eq!(get_file_path(&String::from(""), &dir, 0), None);
    assert_eq!(get_file_path(&String::from("   "), &dir, 0), None);
}

#[test]
fn path_splits_on_any_whitespace() {
    let name = String::from(" Jane\tDoe\n");
    let dir = String::from("reports");
    assert_eq!(
        get_file_path(&name, &dir, 42),
        Some(String::from("reports/AN_Doe_Jane_042.pdf"))
    );
}

#[test]
fn week_field_pads_to_three_digits() {
    assert_eq!(week_field_exec(0), "000");
    assert_eq!(week_field_exec(3), "003");
    assert_eq!(week_field_exec(42), "042");
    assert_eq!(week_field_exec(999), "999");
}

#[test]
fn week_field_matches_std_formatting() {
    for w in [
        0i64,
        1,
        7,
        9,
        10,
        99,
        100,
        101,
        999,
        1000,
        123456,
        -1,
        -9,
        -10,
        -99,
        -100,
        -12345,
        i64::MAX,
        i64::MIN,
    ] {
        assert_eq!(week_field_exec(w), format!("{:03}", w));
    }
}

#[test]
fn same_date_is_week_zero() {
    let d = date_of(2023, 9, 1);
    assert_eq!(compute_week(&d, &d), 0);
}

#[test]
fn all_days_of_one_week_share_the_week_number() {
    let start = date_of(2023, 9, 1);
    // 2023-09-18 through 2023-09-24 is one Monday-to-Sunday week.
    let monday = date_of(2023, 9, 18);
    let w = compute_week(&start, &monday);
    for d in 18..=24 {
        assert_eq!(compute_week(&start, &date_of(2023, 9, d)), w);
    }
    assert_ne!(compute_week(&start, &date_of(2023, 9, 25)), w);
}

#[test]
fn week_number_steps_up_each_monday() {
    let start = date_of(2023, 9, 1);
    // The start falls in its own week: week 0 up to Sunday 2023-09-03.
    assert_eq!(compute_week(&start, &start), 0);
    assert_eq!(compute_week(&start, &date_of(2023, 9, 3)), 0);
    assert_eq!(compute_week(&start, &date_of(2023, 9, 4)), 1);
    assert_eq!(compute_week(&start, &date_of(2023, 9, 11)), 2);
}

#[test]
fn advancing_a_whole_week_adds_one() {
    let start = date_of(2023, 9, 1);
    for d in 1..=21 {
        let t = date_of(2023, 9, d);
        let t_next = date_of(2023, 9, d + 7);
        assert_eq!(
            compute_week(&start, &t_next),
            compute_week(&start, &t) + 1
        );
    }
}

#[test]
fn today_before_the_start_week_gives_a_negative_week() {
    let start = date_of(2023, 9, 18);
    let earlier = date_of(2023, 9, 1);
    assert_eq!(compute_week(&start, &earlier), -3);
}

#[test]
fn monday_aligned_week_for_friday_start() {
    // Start 2023-09-01 is a Friday; its week begins Monday 2023-08-28.
    // 2023-09-18 is a Monday, 21 days after that: three whole weeks.
    let start = parse_start_date("2023-09-01").unwrap();
    let today = parse_start_date("2023-09-18").unwrap();
    assert_eq!(compute_week(&start, &today), 3);
}

#[test]
fn parse_start_date_agrees_with_the_calendar() {
    let d = parse_start_date("2023-09-01").unwrap();
    let expected = chrono::NaiveDate::from_ymd_opt(2023, 9, 1)
        .unwrap()
        .num_days_from_ce() as i64;
    assert_eq!(d.day_number(), expected);
    assert_eq!(d, date_of(2023, 9, 1));
}

#[test]
fn parse_start_date_rejects_malformed_text() {
    assert!(parse_start_date("").is_none());
    assert!(parse_start_date("01.09.2023").is_none());
    assert!(parse_start_date("2023-13-01").is_none());
    assert!(parse_start_date("2023-02-30").is_none());
    assert!(parse_start_date("not a date").is_none());
}

#[test]
fn current_week_requires_a_parseable_start() {
    assert!(get_current_week("2023-09-01").is_some());
    assert!(get_current_week("yesterday").is_none());
}

#[test]
fn date_range_is_enforced() {
    assert!(Date::from_day_number(0).is_some());
    assert!(Date::from_day_number(96_000_000).is_some());
    assert!(Date::from_day_number(96_000_001).is_none());
    assert!(Date::from_day_number(-96_000_001).is_none());
}

#[test]
fn repository_name_replaces_spaces_only() {
    assert_eq!(repository_name(&String::from("Jane Doe")), "Jane_Doe");
    assert_eq!(
        repository_name(&String::from("Jane Middle Doe")),
        "Jane_Middle_Doe"
    );
    assert_eq!(repository_name(&String::from("Jane\tDoe")), "Jane\tDoe");
    assert_eq!(repository_name(&String::from("")), "");
}

#[test]
fn lookup_replies_classify_as_the_run_treats_them() {
    assert_eq!(classify_reply(&ApiReply::Success), LookupOutcome::Exists);
    assert_eq!(
        classify_reply(&ApiReply::ServiceError {
            message: String::from("Not Found")
        }),
        LookupOutcome::Missing
    );
    assert_eq!(
        classify_reply(&ApiReply::ServiceError {
            message: String::from("Bad credentials")
        }),
        LookupOutcome::Fatal
    );
    assert_eq!(classify_reply(&ApiReply::OtherFailure), LookupOutcome::Fatal);
}

#[test]
fn path_agrees_with_reference_construction() {
    let cases = [
        ("Jane Doe", "dir", 5i64),
        ("Jane Middle Doe", "reports", 0),
        ("Max van der Berg", "Ausbildungsnachweise", 42),
        ("Jane\u{00A0}Doe", "d", 7),
        ("  Jane   Doe  ", "d", 999),
        ("Jane Doe", "d", 1000),
        ("Jane Doe", "d", -5),
    ];
    for (name, dir, week) in cases {
        let parts: Vec<&str> = name.split_whitespace().collect();
        let expected = format!(
            "{}/AN_{}_{}_{:03}.pdf",
            dir,
            parts.last().unwrap(),
            parts.first().unwrap(),
            week
        );
        assert_eq!(
            get_file_path(&String::from(name), &String::from(dir), week),
            Some(expected)
        );
    }
}
