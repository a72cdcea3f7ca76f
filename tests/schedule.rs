use gtfs_server::schedule::{parse_calendar_line, validate_static_database, GtfsStaticError};

/// A line of `n` fields, each holding its own index, with `overrides` put in place.
fn line_of(n: usize, overrides: &[(usize, &str)]) -> String {
    let mut fields: Vec<String> = (0..n).map(|i| i.to_string()).collect();
    for (i, v) in overrides {
        fields[*i] = v.to_string();
    }
    fields.join(",")
}

#[test]
fn reads_values_through_one_cursor() {
    let line = line_of(55, &[(0, "SVC1"), (2, "+1"), (5, "-0"), (54, "20201231")]);
    let c = parse_calendar_line(&line).unwrap();
    assert_eq!(c.service_id, "SVC1");
    assert_eq!(c.monday, 1);
    assert_eq!(c.tuesday, 0);
    assert_eq!(c.wednesday, 9);
    assert_eq!(c.thursday, 14);
    assert_eq!(c.friday, 20);
    assert_eq!(c.saturday, 27);
    assert_eq!(c.sunday, 35);
    assert_eq!(c.start_date, 44);
    assert_eq!(c.end_date, 20201231);
}

#[test]
fn ten_column_record_runs_out_of_fields() {
    let r = parse_calendar_line("SVC1,1,1,1,1,1,0,0,20200101,20201231");
    assert!(matches!(r, Err(GtfsStaticError::ParseNoneError)));
}

#[test]
fn empty_line_runs_out_of_fields() {
    assert!(matches!(parse_calendar_line(""), Err(GtfsStaticError::ParseNoneError)));
}

#[test]
fn non_integer_field_is_a_parse_error() {
    let r = parse_calendar_line("a,b,c");
    assert!(matches!(r, Err(GtfsStaticError::ParseIntError(_))));
    let r = parse_calendar_line(&line_of(55, &[(20, " 7")]));
    assert!(matches!(r, Err(GtfsStaticError::ParseIntError(_))));
    let r = parse_calendar_line(&line_of(55, &[(9, "")]));
    assert!(matches!(r, Err(GtfsStaticError::ParseIntError(_))));
}

#[test]
fn out_of_range_integer_is_a_parse_error() {
    let r = parse_calendar_line(&line_of(55, &[(44, "2147483648")]));
    assert!(matches!(r, Err(GtfsStaticError::ParseIntError(_))));
    let c = parse_calendar_line(&line_of(55, &[(44, "-2147483648")])).unwrap();
    assert_eq!(c.start_date, i32::MIN);
}

#[test]
fn earlier_error_in_reading_order_wins() {
    let r = parse_calendar_line(&line_of(20, &[(5, "x")]));
    assert!(matches!(r, Err(GtfsStaticError::ParseIntError(_))));
    let r = parse_calendar_line(&line_of(20, &[(14, "x")]));
    assert!(matches!(r, Err(GtfsStaticError::ParseIntError(_))));
    let r = parse_calendar_line(&line_of(20, &[]));
    assert!(matches!(r, Err(GtfsStaticError::ParseNoneError)));
}

#[test]
fn empty_fields_count_as_fields() {
    let r = parse_calendar_line(",,,");
    assert!(matches!(r, Err(GtfsStaticError::ParseIntError(_))));
}

#[test]
fn validation_accepts_any_paths() {
    assert!(validate_static_database("static/", "db").is_ok());
}
