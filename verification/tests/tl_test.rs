use speedrunapi::translate::tl_time;

#[test]
fn time() {
    let result = tl_time("2014-10-02T12:34:23Z").unwrap();
    assert_eq!(result, "2014-10-02 12:34:23");
    println!("{}", result);
}

#[test]
fn time_with_offset() {
    // An offset timestamp renders in its own offset, fields unchanged.
    let result = tl_time("2020-06-01T08:30:00+02:00").unwrap();
    assert_eq!(result, "2020-06-01 08:30:00");
}

#[test]
fn time_rejects_garbage() {
    assert!(tl_time("yesterday").is_none());
    assert!(tl_time("2014-13-02T12:34:23Z").is_none());
    assert!(tl_time("2014-02-30T12:34:23Z").is_none());
}

#[test]
fn time_leap_day() {
    let result = tl_time("2020-02-29T00:00:00Z").unwrap();
    assert_eq!(result, "2020-02-29 00:00:00");
}
