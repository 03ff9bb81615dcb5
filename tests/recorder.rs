use time_rs::csv_repository::{CsvRepository, RecordError};
use time_rs::task_record::{CalendarDate, TaskRecord};
use time_rs::time_rs::TimeRs;

fn recorder_at(secs: u64) -> TimeRs {
    let mut t = TimeRs::new(CsvRepository::new(Vec::new()));
    t.advance(secs);
    t
}

#[test]
fn human_length_pads_minutes_and_seconds() {
    assert_eq!(recorder_at(125).get_length_for_human(), "02:05");
    assert_eq!(recorder_at(0).get_length_for_human(), "00:00");
    assert_eq!(recorder_at(59).get_length_for_human(), "00:59");
}

#[test]
fn human_length_does_not_wrap_minutes() {
    assert_eq!(recorder_at(3661).get_length_for_human(), "61:01");
    assert_eq!(recorder_at(6000).get_length_for_human(), "100:00");
}

#[test]
fn record_length_is_minutes_with_two_decimals() {
    assert_eq!(recorder_at(90).get_length_for_record(), "1.50");
    assert_eq!(recorder_at(5).get_length_for_record(), "0.08");
    assert_eq!(recorder_at(0).get_length_for_record(), "0.00");
    assert_eq!(recorder_at(1).get_length_for_record(), "0.02");
    assert_eq!(recorder_at(2).get_length_for_record(), "0.03");
    assert_eq!(recorder_at(6000).get_length_for_record(), "100.00");
}

#[test]
fn write_after_ninety_seconds_records_one_and_a_half_minutes() {
    let mut t = recorder_at(90);
    let date = CalendarDate { year: 2024, month: 3, day: 7 };
    assert_eq!(t.write_dated(String::from("planning"), date), Ok(()));
    let records = t.output().read().unwrap();
    assert_eq!(records.len(), 1);
    assert_eq!(records[0].length(), "1.50");
    assert_eq!(records[0].task(), "planning");
    assert_eq!(records[0].date(), "2024-03-07");
    assert_eq!(t.get_length_as_uint(), 90);
}

#[test]
fn write_stamps_today_and_appends() {
    let mut t = recorder_at(90);
    assert_eq!(t.write(String::from("first")), Ok(()));
    assert_eq!(t.write(String::from("second")), Ok(()));
    let records = t.output().read().unwrap();
    assert_eq!(records.len(), 2);
    assert_eq!(records[0].task(), "first");
    assert_eq!(records[1].task(), "second");
    assert_eq!(records[1].length(), "1.50");
    let date = records[0].date().as_bytes();
    assert_eq!(date.len(), 10);
    assert_eq!(date[4], b'-');
    assert_eq!(date[7], b'-');
}

#[test]
fn write_on_malformed_file_fails_and_changes_nothing() {
    let bad = b"date,length\n2024-01-01,1.00\n".to_vec();
    let mut t = TimeRs::new(CsvRepository::new(bad.clone()));
    assert_eq!(t.write(String::from("x")), Err(RecordError::Malformed));
    assert_eq!(t.output().contents(), &bad);
}

#[test]
fn date_text_pads_month_and_day() {
    let r = TaskRecord::for_date(
        CalendarDate { year: 987, month: 12, day: 1 },
        String::from("0.00"),
        String::new(),
    );
    assert_eq!(r.date(), "987-12-01");
}
