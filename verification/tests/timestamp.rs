use infobserve_processor::timestamp::Timestamp;

fn fields(stamp: Timestamp) -> (i32, u32, u32, u32, u32, u32) {
    (stamp.year(), stamp.month(), stamp.day(), stamp.hour(), stamp.minute(), stamp.second())
}

#[test]
fn a_timestamp_is_read_field_by_field() {
    let stamp = Timestamp::parse("2020/02/20-17:18:19").unwrap();
    assert_eq!(fields(stamp), (2020, 2, 20, 17, 18, 19));
    assert_eq!(stamp, Timestamp::new(2020, 2, 20, 17, 18, 19).unwrap());
}

#[test]
fn the_first_and_the_last_second_of_a_day_are_read() {
    assert_eq!(
        fields(Timestamp::parse("1999/12/31-23:59:59").unwrap()),
        (1999, 12, 31, 23, 59, 59)
    );
    assert_eq!(fields(Timestamp::parse("2000/01/01-00:00:00").unwrap()), (2000, 1, 1, 0, 0, 0));
}

#[test]
fn another_form_of_timestamp_is_not_read() {
    assert!(Timestamp::parse("2020-02-20 17:18:19").is_none());
    assert!(Timestamp::parse("2020/02/20 17:18:19").is_none());
    assert!(Timestamp::parse("2020/02/20-17:18").is_none());
    assert!(Timestamp::parse("2020/02/20").is_none());
    assert!(Timestamp::parse("20/02/2020-17:18:19").is_none());
    assert!(Timestamp::parse("2020/02/20-17:18:19Z").is_none());
    assert!(Timestamp::parse("yesterday").is_none());
    assert!(Timestamp::parse("").is_none());
}

#[test]
fn a_day_or_time_that_does_not_exist_is_not_read() {
    assert!(Timestamp::parse("2020/13/01-00:00:00").is_none());
    assert!(Timestamp::parse("2020/00/10-00:00:00").is_none());
    assert!(Timestamp::parse("2020/04/31-00:00:00").is_none());
    assert!(Timestamp::parse("2019/02/29-00:00:00").is_none());
    assert!(Timestamp::parse("2020/02/20-24:00:00").is_none());
    assert!(Timestamp::parse("2020/02/20-23:60:00").is_none());
    assert!(Timestamp::parse("2020/02/20-23:59:61").is_none());
}

#[test]
fn the_29th_of_february_exists_in_leap_years_only() {
    assert!(Timestamp::new(2020, 2, 29, 0, 0, 0).is_some());
    assert!(Timestamp::new(2000, 2, 29, 0, 0, 0).is_some());
    assert!(Timestamp::new(2019, 2, 29, 0, 0, 0).is_none());
    assert!(Timestamp::new(1900, 2, 29, 0, 0, 0).is_none());
    assert!(Timestamp::new(2100, 2, 29, 0, 0, 0).is_none());
    assert!(Timestamp::new(2020, 2, 30, 0, 0, 0).is_none());
    assert!(Timestamp::new(0, 2, 29, 0, 0, 0).is_some());
    assert!(Timestamp::new(-4, 2, 29, 0, 0, 0).is_some());
    assert!(Timestamp::new(-1, 2, 29, 0, 0, 0).is_none());
    assert!(Timestamp::new(-100, 2, 29, 0, 0, 0).is_none());
    assert!(Timestamp::new(-400, 2, 29, 0, 0, 0).is_some());
    assert!(Timestamp::parse("2020/02/29-12:00:00").is_some());
}

#[test]
fn each_month_has_its_length() {
    let lengths = [31, 28, 31, 30, 31, 30, 31, 31, 30, 31, 30, 31];
    for (index, length) in lengths.iter().enumerate() {
        let month = index as u32 + 1;
        assert!(Timestamp::new(2021, month, *length, 0, 0, 0).is_some());
        assert!(Timestamp::new(2021, month, *length + 1, 0, 0, 0).is_none());
        assert!(Timestamp::new(2021, month, 0, 0, 0, 0).is_none());
    }
}

#[test]
fn fields_out_of_range_make_no_timestamp() {
    assert!(Timestamp::new(2021, 0, 1, 0, 0, 0).is_none());
    assert!(Timestamp::new(2021, 13, 1, 0, 0, 0).is_none());
    assert!(Timestamp::new(2021, 1, 1, 24, 0, 0).is_none());
    assert!(Timestamp::new(2021, 1, 1, 0, 60, 0).is_none());
    assert!(Timestamp::new(2021, 1, 1, 0, 0, 60).is_none());
    assert!(Timestamp::new(2021, 1, 1, 23, 59, 59).is_some());
    assert!(Timestamp::new(i32::MAX, 12, 31, 23, 59, 59).is_some());
    assert!(Timestamp::new(i32::MIN, 1, 1, 0, 0, 0).is_some());
}

#[test]
fn only_the_exact_shape_is_read() {
    assert!(Timestamp::parse("2020/2/3-4:5:6").is_none());
    assert!(Timestamp::parse("2020/02/03-4:05:06").is_none());
    assert!(Timestamp::parse(" 2020/02/20-17:18:19").is_none());
    assert!(Timestamp::parse("2020/02/20-17:18:19 ").is_none());
    assert!(Timestamp::parse("+2020/02/20-17:18:19").is_none());
    assert!(Timestamp::parse("02020/02/20-17:18:19").is_none());
    assert!(Timestamp::parse("2020/02/20-17:18:1\u{663}").is_none());
    assert!(Timestamp::parse("2020/02/20T17:18:19").is_none());
    assert!(Timestamp::parse("2020/02/20-17.18.19").is_none());
    assert_eq!(fields(Timestamp::parse("0001/01/01-00:00:00").unwrap()), (1, 1, 1, 0, 0, 0));
    assert_eq!(
        fields(Timestamp::parse("9999/12/31-23:59:59").unwrap()),
        (9999, 12, 31, 23, 59, 59)
    );
}

#[test]
fn a_second_of_sixty_is_not_read() {
    assert!(Timestamp::parse("2016/12/31-23:59:60").is_none());
    assert!(Timestamp::parse("2016/12/31-23:59:69").is_none());
    assert!(Timestamp::parse("2016/12/31-23:59:99").is_none());
    assert_eq!(
        fields(Timestamp::parse("2016/12/31-23:59:59").unwrap()),
        (2016, 12, 31, 23, 59, 59)
    );
}
