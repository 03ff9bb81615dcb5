use time_rs::configuration_repository::{ConfigError, ConfigurationRepository};

#[test]
fn first_run_points_at_work_entries() {
    let c = ConfigurationRepository::with_defaults();
    assert_eq!(c.get("records_file_path").unwrap(), "work_entries.csv");
}

#[test]
fn written_text_reads_back() {
    let c = ConfigurationRepository::with_defaults();
    let text = c.write();
    assert_eq!(text, "[default]\nrecords_file_path=work_entries.csv\n");
    let again = ConfigurationRepository::new(&text).unwrap();
    assert_eq!(again.get("records_file_path").unwrap(), "work_entries.csv");
}

#[test]
fn set_changes_memory_and_then_the_written_text() {
    let mut c = ConfigurationRepository::with_defaults();
    c.set("records_file_path", String::from("/tmp/out.csv"));
    assert_eq!(c.get("records_file_path").unwrap(), "/tmp/out.csv");
    let again = ConfigurationRepository::new(&c.write()).unwrap();
    assert_eq!(again.get("records_file_path").unwrap(), "/tmp/out.csv");
}

#[test]
fn missing_key_is_an_error() {
    let c = ConfigurationRepository::new("[default]\nother=1\n").unwrap();
    assert_eq!(c.get("records_file_path").unwrap_err(), ConfigError::MissingKey);
}

#[test]
fn unclosed_section_is_malformed() {
    let r = ConfigurationRepository::new("[default\nrecords_file_path=x\n");
    assert!(matches!(r, Err(ConfigError::Malformed)));
}

#[test]
fn loaded_text_gives_every_setting_of_the_section() {
    let c = ConfigurationRepository::new("top=1\n[default]\nrecords_file_path = a b.csv\ncolour=blue\n[other]\nx=2\n").unwrap();
    assert_eq!(c.get("records_file_path").unwrap(), "a b.csv");
    assert_eq!(c.get("colour").unwrap(), "blue");
    assert_eq!(c.get("x").unwrap_err(), ConfigError::MissingKey);
    assert_eq!(c.get("top").unwrap_err(), ConfigError::MissingKey);
}
