use time_rs::csv_repository::{CsvRepository, RecordError};
use time_rs::task_record::TaskRecord;

fn rec(date: &str, length: &str, task: &str) -> TaskRecord {
    TaskRecord::new(String::from(date), String::from(length), String::from(task))
}

#[test]
fn empty_file_holds_no_records() {
    let repo = CsvRepository::new(Vec::new());
    assert_eq!(repo.read().unwrap().len(), 0);
}

#[test]
fn header_alone_holds_no_records() {
    let repo = CsvRepository::new(b"date,length,task\n".to_vec());
    assert_eq!(repo.read().unwrap().len(), 0);
}

#[test]
fn write_gives_header_and_rows() {
    let mut repo = CsvRepository::new(Vec::new());
    repo.write(vec![rec("2024-01-02", "1.50", "a, b"), rec("2024-01-03", "0.08", "say \"hi\"")]);
    let text = String::from_utf8(repo.contents().clone()).unwrap();
    assert_eq!(
        text,
        "date,length,task\n2024-01-02,1.50,\"a, b\"\n2024-01-03,0.08,\"say \"\"hi\"\"\"\n"
    );
}

#[test]
fn write_of_read_gives_the_same_rows() {
    let stored = b"date,length,task\n2024-01-02,1.50,\"line\nbreak\"\n2024-01-03,0.08,plain\n";
    let mut repo = CsvRepository::new(stored.to_vec());
    let records = repo.read().unwrap();
    repo.write(records);
    assert_eq!(repo.contents(), &stored.to_vec());
    let again = repo.read().unwrap();
    assert_eq!(again.len(), 2);
    assert_eq!(again[0].task(), "line\nbreak");
    assert_eq!(again[1].date(), "2024-01-03");
}

#[test]
fn write_replaces_the_whole_content() {
    let mut repo = CsvRepository::new(b"date,length,task\n2024-01-02,1.50,old\n".to_vec());
    repo.write(vec![rec("2025-05-05", "2.00", "new")]);
    let records = repo.read().unwrap();
    assert_eq!(records.len(), 1);
    assert_eq!(records[0].task(), "new");
}

#[test]
fn wrong_header_is_malformed() {
    let repo = CsvRepository::new(b"day,length,task\n2024-01-02,1.50,x\n".to_vec());
    assert_eq!(repo.read().unwrap_err(), RecordError::Malformed);
}

#[test]
fn short_row_is_malformed() {
    let repo = CsvRepository::new(b"date,length,task\n2024-01-02,1.50\n".to_vec());
    assert_eq!(repo.read().unwrap_err(), RecordError::Malformed);
}

#[test]
fn invalid_utf8_is_malformed() {
    let repo = CsvRepository::new(vec![b'd', 0xff, b'\n']);
    assert_eq!(repo.read().unwrap_err(), RecordError::Malformed);
}

#[test]
fn columns_are_found_by_name() {
    let repo = CsvRepository::new(b"task,note,date,length\nplan,x,2024-02-03,0.50\n".to_vec());
    let records = repo.read().unwrap();
    assert_eq!(records.len(), 1);
    assert_eq!(records[0].date(), "2024-02-03");
    assert_eq!(records[0].length(), "0.50");
    assert_eq!(records[0].task(), "plan");
}

#[test]
fn repeated_column_is_malformed() {
    let repo = CsvRepository::new(b"date,length,task,task\n2024-01-02,1.50,x,y\n".to_vec());
    assert_eq!(repo.read().unwrap_err(), RecordError::Malformed);
}

#[test]
fn missing_column_is_malformed() {
    let repo = CsvRepository::new(b"date,length,note\n2024-01-02,1.50,x\n".to_vec());
    assert_eq!(repo.read().unwrap_err(), RecordError::Malformed);
}
