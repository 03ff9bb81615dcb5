use crate::csv_repository::{
    csv_text, records_of, records_view, table_of, CsvRepository, RecordError,
};
use crate::stopwatch::{reset_view, Stopwatch, StopwatchView};
use crate::task_record::{date_text, utc_today, CalendarDate, TaskRecord, TaskRecordView};
use crate::text::{append_decimal, append_padded2, decimal, padded2};
use vstd::prelude::*;

verus! {

/// `MM:SS`: minutes and seconds, each padded to two digits; minutes do not wrap.
pub open spec fn human_length(secs: nat) -> Seq<char> {
    padded2(secs / 60) + seq![':'] + padded2(secs % 60)
}

/// `secs / 60` minutes, rounded to the nearest hundredth. No tie can arise:
/// `100 * secs / 60 == 5 * secs / 3` never ends in a half.
pub open spec fn hundredths_of_minute(secs: nat) -> nat {
    (secs * 100 + 30) / 60
}

/// The length of a session of `secs` seconds as stored: minutes with exactly two
/// digits after the point.
pub open spec fn record_length(secs: nat) -> Seq<char> {
    let h = hundredths_of_minute(secs);
    decimal(h / 100) + seq!['.'] + padded2(h % 100)
}

pub struct TimeRsView {
    pub stopwatch: StopwatchView,
    pub output: Seq<u8>,
}

/// The record appended for a session of `secs` seconds on `date`.
pub open spec fn session_record(date: CalendarDate, secs: nat, task: Seq<char>) -> TaskRecordView {
    TaskRecordView { date: date_text(date), length: record_length(secs), task }
}

/// `after` is the content that appending `rec` to `before` gives: the records
/// read from `before`, then `rec`, written back, so that reading it yields
/// exactly those. Nothing can be appended to malformed content.
pub open spec fn appends(before: Seq<u8>, rec: TaskRecordView, after: Seq<u8>) -> bool {
    match records_of(before) {
        Some(rs) => after == csv_text(table_of(rs.push(rec))) && records_of(after) == Some(
            rs.push(rec),
        ),
        None => false,
    }
}

/// A stopwatch whose finished sessions are appended to a records file.
pub struct TimeRs {
    time_keeper: Stopwatch,
    output: CsvRepository,
}

impl View for TimeRs {
    type V = TimeRsView;

    closed spec fn view(&self) -> TimeRsView {
        TimeRsView { stopwatch: self.time_keeper@, output: self.output@ }
    }
}

impl TimeRs {
    pub fn new(output: CsvRepository) -> (r: TimeRs)
        ensures
            r@ == (TimeRsView { stopwatch: reset_view(), output: output@ }),
    {
        TimeRs { time_keeper: Stopwatch::new(), output }
    }

    /// The records file as it now stands.
    pub fn output(&self) -> (r: &CsvRepository)
        ensures
            r@ == self@.output,
    {
        &self.output
    }

    pub fn get_length_as_uint(&self) -> (r: u64)
        ensures
            r as nat == self@.stopwatch.length,
    {
        self.time_keeper.get_length_as_uint()
    }

    pub fn start(&mut self)
        ensures
            final(self)@ == (TimeRsView { stopwatch: old(self)@.stopwatch.started(), ..old(self)@ }),
    {
        self.time_keeper.start();
    }

    pub fn advance(&mut self, amount: u64)
        requires
            old(self)@.stopwatch.length + amount <= u64::MAX,
        ensures
            final(self)@ == (TimeRsView {
                stopwatch: old(self)@.stopwatch.advanced(amount as nat),
                ..old(self)@
            }),
    {
        self.time_keeper.advance(amount);
    }

    pub fn get_length_for_human(&self) -> (r: String)
        ensures
            r@ == human_length(self@.stopwatch.length),
    {
        let length = self.time_keeper.get_length_as_uint();
        let mut text = String::new();
        append_padded2(&mut text, (length / 60) as u128);
        text.append(":");
        append_padded2(&mut text, (length % 60) as u128);
        proof {
            reveal_strlit(":");
            assert(text@ =~= human_length(self@.stopwatch.length));
        }
        text
    }

    pub fn get_length_for_record(&self) -> (r: String)
        ensures
            r@ == record_length(self@.stopwatch.length),
    {
        let length = self.time_keeper.get_length_as_uint();
        let h: u128 = (length as u128 * 100 + 30) / 60;
        let mut text = String::new();
        append_decimal(&mut text, h / 100);
        text.append(".");
        append_padded2(&mut text, h % 100);
        proof {
            reveal_strlit(".");
            assert(text@ =~= record_length(self@.stopwatch.length));
        }
        text
    }

    pub fn reset(&mut self)
        ensures
            final(self)@ == (TimeRsView { stopwatch: reset_view(), ..old(self)@ }),
    {
        self.time_keeper.reset();
    }

    pub fn stop(&mut self)
        ensures
            final(self)@ == (TimeRsView { stopwatch: old(self)@.stopwatch.stopped(), ..old(self)@ }),
    {
        self.time_keeper.stop();
    }

    /// Reads every record, appends `rec` and writes them all back.
    fn append_record(&mut self, rec: TaskRecord) -> (r: Result<(), RecordError>)
        ensures
            final(self)@.stopwatch == old(self)@.stopwatch,
            match r {
                Ok(()) => appends(old(self)@.output, rec@, final(self)@.output),
                Err(_) => records_of(old(self)@.output) is None && final(self)@ == old(self)@,
            },
    {
        let mut task_records = match self.output.read() {
            Ok(v) => v,
            Err(e) => {
                return Err(e);
            },
        };
        let ghost before = records_view(task_records@);
        task_records.push(rec);
        assert(records_view(task_records@) =~= before.push(rec@));
        self.output.write(task_records);
        Ok(())
    }

    /// Appends a record of the session so far, stamped with `date`.
    pub fn write_dated(&mut self, task: String, date: CalendarDate) -> (r: Result<(), RecordError>)
        ensures
            final(self)@.stopwatch == old(self)@.stopwatch,
            match r {
                Ok(()) => appends(
                    old(self)@.output,
                    session_record(date, old(self)@.stopwatch.length, task@),
                    final(self)@.output,
                ),
                Err(_) => records_of(old(self)@.output) is None && final(self)@ == old(self)@,
            },
    {
        let length_string = self.get_length_for_record();
        let rec = TaskRecord::for_date(date, length_string, task);
        self.append_record(rec)
    }

    /// Appends a record of the session so far, stamped with today's date in UTC.
    /// It fails, changing nothing, where the records file is malformed or the
    /// system clock gives no date; it succeeds otherwise.
    pub fn write(&mut self, task: String) -> (r: Result<(), RecordError>)
        ensures
            final(self)@.stopwatch == old(self)@.stopwatch,
            r is Err ==> final(self)@ == old(self)@,
            r == Err::<(), RecordError>(RecordError::Malformed) ==> records_of(old(self)@.output) is None,
            records_of(old(self)@.output) is None ==> r is Err,
            records_of(old(self)@.output) is Some ==> r is Ok || r == Err::<(), RecordError>(RecordError::NoDate),
            r is Ok ==> exists|d: CalendarDate|
                d.wf() && appends(
                    old(self)@.output,
                    #[trigger] session_record(d, old(self)@.stopwatch.length, task@),
                    final(self)@.output,
                ),
    {
        match utc_today() {
            Some(date) => self.write_dated(task, date),
            None => Err(RecordError::NoDate),
        }
    }
}

} // verus!
