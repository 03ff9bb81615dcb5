use crate::configuration_repository::{
    plain_key, plain_value, records_file_path_key, ConfigError, ConfigurationRepository,
};
use crate::csv_repository::{records_of, CsvRepository, RecordError};
use crate::stopwatch::reset_view;
use crate::task_record::CalendarDate;
use crate::time_rs::{appends, session_record, TimeRs, TimeRsView};
use vstd::prelude::*;

verus! {

/// Seconds between two ticks while the stopwatch runs.
pub const TIME_RESOLUTION: u64 = 1;

/// The screen the application is on; exactly one at a time.
#[derive(Clone, Copy, Debug, PartialEq, Eq, Structural)]
pub enum State {
    Idle,
    Running,
    Finished,
    Settings,
}

/// What the user, or the tick timer, asks for.
#[derive(Clone, Debug)]
pub enum Message {
    StartStop,
    Reset,
    Record,
    Save,
    Cancel,
    Settings,
    ChangeSettings,
    Quit,
    Tick,
    TaskInputChanged(String),
    RecordsFilePathInputChanged(String),
}

/// What the caller must do once a message has been handled.
#[derive(Clone, Copy, Debug, PartialEq, Eq, Structural)]
pub enum Effect {
    Nothing,
    /// Store the records file's new content.
    StoreRecords,
    /// Store the settings file's new text.
    StoreConfiguration,
    /// End the process, storing nothing.
    Exit,
}

#[derive(Clone, Copy, Debug, PartialEq, Eq)]
pub enum AppError {
    Records(RecordError),
    Configuration(ConfigError),
}

pub struct ApplicationView {
    pub configuration: Map<Seq<char>, Seq<char>>,
    /// The settings' text reads back to `configuration`.
    pub configuration_writes_back: bool,
    pub recorder: TimeRsView,
    pub state: State,
    pub task_input: Seq<char>,
    pub records_file_path_input: Seq<char>,
}

impl ApplicationView {
    pub open spec fn with_state(self, state: State) -> ApplicationView {
        ApplicationView { state, ..self }
    }

    pub open spec fn stopwatch_started(self) -> ApplicationView {
        ApplicationView {
            recorder: TimeRsView { stopwatch: self.recorder.stopwatch.started(), ..self.recorder },
            ..self
        }
    }

    pub open spec fn stopwatch_stopped(self) -> ApplicationView {
        ApplicationView {
            recorder: TimeRsView { stopwatch: self.recorder.stopwatch.stopped(), ..self.recorder },
            ..self
        }
    }

    pub open spec fn stopwatch_reset(self) -> ApplicationView {
        ApplicationView {
            recorder: TimeRsView { stopwatch: reset_view(), ..self.recorder },
            ..self
        }
    }

    pub open spec fn stopwatch_advanced(self, n: nat) -> ApplicationView {
        ApplicationView {
            recorder: TimeRsView { stopwatch: self.recorder.stopwatch.advanced(n), ..self.recorder },
            ..self
        }
    }

    pub open spec fn idle_or_running(self) -> bool {
        self.state == State::Idle || self.state == State::Running
    }
}

/// One step of the state machine: from `s`, message `m` leads to `t` with result `r`.
/// Messages not listed for a state change nothing.
pub open spec fn step(
    s: ApplicationView,
    m: Message,
    t: ApplicationView,
    r: Result<Effect, AppError>,
) -> bool {
    match m {
        Message::StartStop => r == Ok::<Effect, AppError>(Effect::Nothing) && if s.state
            == State::Idle {
            t == s.stopwatch_started().with_state(State::Running)
        } else if s.state == State::Running {
            t == s.stopwatch_stopped().with_state(State::Idle)
        } else {
            t == s
        },
        Message::Reset => r == Ok::<Effect, AppError>(Effect::Nothing) && if s.idle_or_running() {
            t == s.stopwatch_reset().with_state(State::Idle)
        } else {
            t == s
        },
        Message::Record => r == Ok::<Effect, AppError>(Effect::Nothing) && if s.idle_or_running() {
            t == s.stopwatch_stopped().with_state(State::Finished)
        } else {
            t == s
        },
        Message::Tick => r == Ok::<Effect, AppError>(Effect::Nothing) && if s.state
            == State::Running {
            t == s.stopwatch_advanced(TIME_RESOLUTION as nat)
        } else {
            t == s
        },
        Message::Save => if s.state == State::Finished {
            &&& (records_of(s.recorder.output) is None ==> r is Err)
            &&& match r {
                Ok(e) => {
                    &&& e == Effect::StoreRecords
                    &&& exists|d: CalendarDate|
                        d.wf() && appends(
                            s.recorder.output,
                            #[trigger] session_record(d, s.recorder.stopwatch.length, s.task_input),
                            t.recorder.output,
                        )
                    &&& t == ApplicationView {
                        recorder: TimeRsView { stopwatch: reset_view(), output: t.recorder.output },
                        state: State::Idle,
                        ..s
                    }
                },
                Err(e) => {
                    &&& t == s
                    &&& (e == AppError::Records(RecordError::NoDate) || (e == AppError::Records(
                        RecordError::Malformed,
                    ) && records_of(s.recorder.output) is None))
                },
            }
        } else {
            r == Ok::<Effect, AppError>(Effect::Nothing) && t == s
        },
        Message::Cancel => r == Ok::<Effect, AppError>(Effect::Nothing) && if s.state
            == State::Finished || s.state == State::Settings {
            t == s.with_state(State::Idle)
        } else {
            t == s
        },
        Message::Settings => if s.configuration.contains_key(records_file_path_key()) {
            r == Ok::<Effect, AppError>(Effect::Nothing) && t == ApplicationView {
                records_file_path_input: s.configuration[records_file_path_key()],
                state: State::Settings,
                ..s
            }
        } else {
            r == Err::<Effect, AppError>(AppError::Configuration(ConfigError::MissingKey)) && t
                == s
        },
        Message::ChangeSettings => if s.state == State::Settings {
            &&& r == Ok::<Effect, AppError>(Effect::StoreConfiguration)
            &&& t.configuration == s.configuration.insert(
                records_file_path_key(),
                s.records_file_path_input,
            )
            &&& (s.configuration_writes_back && plain_value(s.records_file_path_input)
                ==> t.configuration_writes_back)
            &&& t == ApplicationView {
                configuration: t.configuration,
                configuration_writes_back: t.configuration_writes_back,
                state: State::Idle,
                ..s
            }
        } else {
            r == Ok::<Effect, AppError>(Effect::Nothing) && t == s
        },
        Message::Quit => r == Ok::<Effect, AppError>(Effect::Exit) && t == s,
        Message::TaskInputChanged(v) => r == Ok::<Effect, AppError>(Effect::Nothing) && t
            == ApplicationView { task_input: v@, ..s },
        Message::RecordsFilePathInputChanged(v) => r == Ok::<Effect, AppError>(Effect::Nothing)
            && t == ApplicationView { records_file_path_input: v@, ..s },
    }
}

/// The settings, the recorder, the current screen and the two text inputs.
pub struct Application {
    configuration: ConfigurationRepository,
    time_rs: TimeRs,
    state: State,
    task_input_value: String,
    records_file_path_input_value: String,
}

impl View for Application {
    type V = ApplicationView;

    closed spec fn view(&self) -> ApplicationView {
        ApplicationView {
            configuration: self.configuration@,
            configuration_writes_back: self.configuration.writes_back(),
            recorder: self.time_rs@,
            state: self.state,
            task_input: self.task_input_value@,
            records_file_path_input: self.records_file_path_input_value@,
        }
    }
}

impl Application {
    /// Starts idle, with a reset stopwatch writing to `records`.
    pub fn new(configuration: ConfigurationRepository, records: CsvRepository) -> (r: Application)
        ensures
            r@ == (ApplicationView {
                configuration: configuration@,
                configuration_writes_back: configuration.writes_back(),
                recorder: TimeRsView { stopwatch: reset_view(), output: records@ },
                state: State::Idle,
                task_input: Seq::empty(),
                records_file_path_input: Seq::empty(),
            }),
    {
        Application {
            configuration,
            time_rs: TimeRs::new(records),
            state: State::Idle,
            task_input_value: String::new(),
            records_file_path_input_value: String::new(),
        }
    }

    pub fn state(&self) -> (r: State)
        ensures
            r == self@.state,
    {
        self.state
    }

    pub fn time_rs(&self) -> (r: &TimeRs)
        ensures
            r@ == self@.recorder,
    {
        &self.time_rs
    }

    pub fn configuration(&self) -> (r: &ConfigurationRepository)
        ensures
            r@ == self@.configuration,
    {
        &self.configuration
    }

    pub fn task_input_value(&self) -> (r: &String)
        ensures
            r@ == self@.task_input,
    {
        &self.task_input_value
    }

    pub fn records_file_path_input_value(&self) -> (r: &String)
        ensures
            r@ == self@.records_file_path_input,
    {
        &self.records_file_path_input_value
    }

    /// The period of the tick timer: set while running, and only then.
    pub fn subscription(&self) -> (r: Option<u64>)
        ensures
            r == (if self@.state == State::Running {
                Some(TIME_RESOLUTION)
            } else {
                None::<u64>
            }),
    {
        match self.state {
            State::Running => Some(TIME_RESOLUTION),
            _ => None,
        }
    }

    /// Handles one message and says what the caller must store, if anything.
    pub fn update(&mut self, message: Message) -> (r: Result<Effect, AppError>)
        requires
            message is Tick && old(self)@.state == State::Running ==> old(self)@.recorder.stopwatch.length
                + TIME_RESOLUTION <= u64::MAX,
        ensures
            step(old(self)@, message, final(self)@, r),
    {
        match message {
            Message::StartStop => {
                match self.state {
                    State::Idle => {
                        self.time_rs.start();
                        self.state = State::Running;
                    },
                    State::Running => {
                        self.time_rs.stop();
                        self.state = State::Idle;
                    },
                    _ => {},
                }
                Ok(Effect::Nothing)
            },
            Message::Reset => {
                if let State::Idle | State::Running = self.state {
                    self.time_rs.reset();
                    self.state = State::Idle;
                }
                Ok(Effect::Nothing)
            },
            Message::Record => {
                if let State::Idle | State::Running = self.state {
                    self.time_rs.stop();
                    self.state = State::Finished;
                }
                Ok(Effect::Nothing)
            },
            Message::Tick => {
                if let State::Running = self.state {
                    self.time_rs.advance(TIME_RESOLUTION);
                }
                Ok(Effect::Nothing)
            },
            Message::TaskInputChanged(value) => {
                self.task_input_value = value;
                Ok(Effect::Nothing)
            },
            Message::RecordsFilePathInputChanged(value) => {
                self.records_file_path_input_value = value;
                Ok(Effect::Nothing)
            },
            Message::Save => {
                if let State::Finished = self.state {
                    match self.time_rs.write(self.task_input_value.clone()) {
                        Ok(()) => {
                            self.time_rs.reset();
                            self.state = State::Idle;
                            Ok(Effect::StoreRecords)
                        },
                        Err(e) => Err(AppError::Records(e)),
                    }
                } else {
                    Ok(Effect::Nothing)
                }
            },
            Message::Cancel => {
                if let State::Finished | State::Settings = self.state {
                    self.state = State::Idle;
                }
                Ok(Effect::Nothing)
            },
            Message::Settings => {
                match self.configuration.get("records_file_path") {
                    Ok(path) => {
                        proof {
                            reveal_strlit("records_file_path");
                        }
                        self.records_file_path_input_value = path;
                        self.state = State::Settings;
                        Ok(Effect::Nothing)
                    },
                    Err(e) => Err(AppError::Configuration(e)),
                }
            },
            Message::ChangeSettings => {
                if let State::Settings = self.state {
                    self.configuration.set(
                        "records_file_path",
                        self.records_file_path_input_value.clone(),
                    );
                    proof {
                        reveal_strlit("records_file_path");
                        assert(plain_key("records_file_path"@));
                    }
                    self.state = State::Idle;
                    Ok(Effect::StoreConfiguration)
                } else {
                    Ok(Effect::Nothing)
                }
            },
            Message::Quit => Ok(Effect::Exit),
        }
    }
}

/// Quitting, from any state, changes nothing and stores nothing: the only
/// outcome is the order to exit.
pub proof fn lemma_quit_stores_nothing(
    s: ApplicationView,
    t: ApplicationView,
    r: Result<Effect, AppError>,
)
    requires
        step(s, Message::Quit, t, r),
    ensures
        t == s,
        r == Ok::<Effect, AppError>(Effect::Exit),
{
}

} // verus!
