use biologischer_log::clock::Timestamp;

#[test]
fn text_is_zero_padded() {
    let t = Timestamp::new(9, 5, 3, 7).unwrap();
    assert_eq!(t.text(), "09:05:03.007");
}

#[test]
fn text_of_the_last_millisecond_of_the_day() {
    let t = Timestamp::new(23, 59, 59, 999).unwrap();
    assert_eq!(t.text(), "23:59:59.999");
}

#[test]
fn text_of_midnight() {
    assert_eq!(Timestamp::midnight().text(), "00:00:00.000");
    assert_eq!(Timestamp::new(0, 0, 0, 0).unwrap().text(), "00:00:00.000");
}

#[test]
fn text_has_two_and_three_digits() {
    assert_eq!(Timestamp::new(12, 34, 56, 789).unwrap().text(), "12:34:56.789");
    assert_eq!(Timestamp::new(10, 20, 30, 40).unwrap().text(), "10:20:30.040");
    assert_eq!(Timestamp::new(1, 2, 3, 400).unwrap().text(), "01:02:03.400");
}

#[test]
fn leap_second_shows_as_second_sixty() {
    let t = Timestamp::new(23, 59, 59, 1500).unwrap();
    assert_eq!(t.text(), "23:59:60.500");
    let t = Timestamp::new(7, 8, 59, 1000).unwrap();
    assert_eq!(t.text(), "07:08:60.000");
    let t = Timestamp::new(7, 8, 59, 1999).unwrap();
    assert_eq!(t.text(), "07:08:60.999");
}

#[test]
fn fields_come_back_as_given() {
    let t = Timestamp::new(12, 34, 56, 789).unwrap();
    assert_eq!((t.hour(), t.minute(), t.second(), t.milli()), (12, 34, 56, 789));
}

#[test]
fn times_that_do_not_exist_are_refused() {
    assert!(Timestamp::new(24, 0, 0, 0).is_none());
    assert!(Timestamp::new(0, 60, 0, 0).is_none());
    assert!(Timestamp::new(0, 0, 60, 0).is_none());
    assert!(Timestamp::new(0, 0, 0, 2000).is_none());
    assert!(Timestamp::new(0, 0, 58, 1000).is_none());
    assert!(Timestamp::new(u32::MAX, u32::MAX, u32::MAX, u32::MAX).is_none());
    assert!(Timestamp::new(23, 59, 59, 4_294_968).is_none());
}

#[test]
fn boundaries_are_accepted() {
    assert!(Timestamp::new(23, 0, 0, 0).is_some());
    assert!(Timestamp::new(0, 59, 0, 0).is_some());
    assert!(Timestamp::new(0, 0, 59, 0).is_some());
    assert!(Timestamp::new(0, 0, 0, 999).is_some());
    assert!(Timestamp::new(0, 0, 59, 1999).is_some());
}

#[test]
fn a_reading_that_is_a_time_stands_for_itself() {
    assert_eq!(Timestamp::from_reading(12, 34, 56, 789).text(), "12:34:56.789");
    assert_eq!(Timestamp::from_reading(23, 59, 59, 1250).text(), "23:59:60.250");
    assert_eq!(Timestamp::from_reading(0, 0, 0, 0).text(), "00:00:00.000");
}

#[test]
fn a_reading_with_too_many_milliseconds_is_cut_to_its_second() {
    assert_eq!(Timestamp::from_reading(12, 34, 56, 1000).text(), "12:34:56.999");
    assert_eq!(Timestamp::from_reading(12, 34, 59, 2000).text(), "12:34:59.999");
    assert_eq!(Timestamp::from_reading(1, 2, 3, u32::MAX).text(), "01:02:03.999");
}

#[test]
fn a_reading_out_of_range_is_midnight() {
    assert_eq!(Timestamp::from_reading(24, 0, 0, 0).text(), "00:00:00.000");
    assert_eq!(Timestamp::from_reading(1, 60, 0, 5).text(), "00:00:00.000");
    assert_eq!(Timestamp::from_reading(1, 2, 60, 5).text(), "00:00:00.000");
}
