use time_rs::application::{AppError, Application, Effect, Message, State};
use time_rs::configuration_repository::{ConfigError, ConfigurationRepository};
use time_rs::csv_repository::{CsvRepository, RecordError};

fn fresh() -> Application {
    Application::new(ConfigurationRepository::with_defaults(), CsvRepository::new(Vec::new()))
}

fn send(app: &mut Application, m: Message) -> Effect {
    app.update(m).unwrap()
}

fn in_state(state: State) -> Application {
    let mut app = fresh();
    match state {
        State::Idle => {}
        State::Running => {
            send(&mut app, Message::StartStop);
        }
        State::Finished => {
            send(&mut app, Message::Record);
        }
        State::Settings => {
            send(&mut app, Message::Settings);
        }
    }
    assert_eq!(app.state(), state);
    app
}

#[test]
fn session_is_timed_and_saved() {
    let mut app = fresh();
    assert_eq!(app.state(), State::Idle);
    assert_eq!(send(&mut app, Message::StartStop), Effect::Nothing);
    assert_eq!(app.state(), State::Running);
    for _ in 0..5 {
        send(&mut app, Message::Tick);
    }
    assert_eq!(app.state(), State::Running);
    assert_eq!(app.time_rs().get_length_as_uint(), 5);
    send(&mut app, Message::Record);
    assert_eq!(app.state(), State::Finished);
    send(&mut app, Message::TaskInputChanged(String::from("wrote spec")));
    assert_eq!(send(&mut app, Message::Save), Effect::StoreRecords);
    assert_eq!(app.state(), State::Idle);
    assert_eq!(app.time_rs().get_length_as_uint(), 0);
    let records = app.time_rs().output().read().unwrap();
    assert_eq!(records.len(), 1);
    assert_eq!(records[0].task(), "wrote spec");
    assert_eq!(records[0].length(), "0.08");
}

#[test]
fn settings_change_is_stored() {
    let mut app = fresh();
    send(&mut app, Message::Settings);
    assert_eq!(app.state(), State::Settings);
    assert_eq!(app.records_file_path_input_value(), "work_entries.csv");
    send(&mut app, Message::RecordsFilePathInputChanged(String::from("/tmp/out.csv")));
    assert_eq!(send(&mut app, Message::ChangeSettings), Effect::StoreConfiguration);
    assert_eq!(app.state(), State::Idle);
    let reloaded = ConfigurationRepository::new(&app.configuration().write()).unwrap();
    assert_eq!(reloaded.get("records_file_path").unwrap(), "/tmp/out.csv");
}

#[test]
fn quit_from_any_state_only_exits() {
    for state in [State::Idle, State::Running, State::Finished, State::Settings] {
        let mut app = in_state(state);
        let text = app.configuration().write();
        let data = app.time_rs().output().contents().clone();
        assert_eq!(send(&mut app, Message::Quit), Effect::Exit);
        assert_eq!(app.state(), state);
        assert_eq!(app.configuration().write(), text);
        assert_eq!(app.time_rs().output().contents(), &data);
    }
}

#[test]
fn start_stop_toggles_between_idle_and_running() {
    let mut app = fresh();
    send(&mut app, Message::StartStop);
    send(&mut app, Message::Tick);
    send(&mut app, Message::StartStop);
    assert_eq!(app.state(), State::Idle);
    assert_eq!(app.time_rs().get_length_as_uint(), 1);
}

#[test]
fn ticks_only_count_while_running() {
    let mut app = fresh();
    send(&mut app, Message::Tick);
    assert_eq!(app.time_rs().get_length_as_uint(), 0);
}

#[test]
fn reset_returns_to_idle_at_zero() {
    let mut app = in_state(State::Running);
    send(&mut app, Message::Tick);
    send(&mut app, Message::Reset);
    assert_eq!(app.state(), State::Idle);
    assert_eq!(app.time_rs().get_length_as_uint(), 0);
}

#[test]
fn unlisted_messages_change_nothing() {
    let mut app = in_state(State::Finished);
    send(&mut app, Message::StartStop);
    send(&mut app, Message::Reset);
    send(&mut app, Message::ChangeSettings);
    assert_eq!(app.state(), State::Finished);
    let mut app = in_state(State::Idle);
    assert_eq!(send(&mut app, Message::Save), Effect::Nothing);
    send(&mut app, Message::Cancel);
    assert_eq!(app.state(), State::Idle);
    assert_eq!(app.time_rs().output().contents().len(), 0);
}

#[test]
fn cancel_leaves_finished_and_settings() {
    let mut app = in_state(State::Finished);
    send(&mut app, Message::Cancel);
    assert_eq!(app.state(), State::Idle);
    let mut app = in_state(State::Settings);
    send(&mut app, Message::Cancel);
    assert_eq!(app.state(), State::Idle);
}

#[test]
fn tick_timer_runs_only_while_running() {
    assert_eq!(in_state(State::Idle).subscription(), None);
    assert_eq!(in_state(State::Running).subscription(), Some(1));
    assert_eq!(in_state(State::Finished).subscription(), None);
    assert_eq!(in_state(State::Settings).subscription(), None);
}

#[test]
fn save_on_malformed_records_fails_and_stays() {
    let mut app = Application::new(
        ConfigurationRepository::with_defaults(),
        CsvRepository::new(b"nonsense\n".to_vec()),
    );
    send(&mut app, Message::Record);
    assert_eq!(app.update(Message::Save), Err(AppError::Records(RecordError::Malformed)));
    assert_eq!(app.state(), State::Finished);
}

#[test]
fn settings_without_path_key_fails() {
    let config = ConfigurationRepository::new("[default]\n").unwrap();
    let mut app = Application::new(config, CsvRepository::new(Vec::new()));
    assert_eq!(
        app.update(Message::Settings),
        Err(AppError::Configuration(ConfigError::MissingKey))
    );
    assert_eq!(app.state(), State::Idle);
}
