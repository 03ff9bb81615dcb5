use crate::text::{append_decimal, append_padded2, decimal, padded2};
use vstd::prelude::*;

verus! {

/// A calendar date held as plain numbers.
#[derive(Clone, Copy, Debug, PartialEq, Eq)]
pub struct CalendarDate {
    pub year: u32,
    pub month: u32,
    pub day: u32,
}

impl CalendarDate {
    /// Year counted from 1, month in 1..=12, day in 1..=31.
    pub open spec fn wf(self) -> bool {
        &&& 1 <= self.year
        &&& 1 <= self.month <= 12
        &&& 1 <= self.day <= 31
    }
}

/// `YYYY-MM-DD`: the year unpadded, month and day padded to two digits.
pub open spec fn date_text(d: CalendarDate) -> Seq<char> {
    decimal(d.year as nat) + seq!['-'] + padded2(d.month as nat) + seq!['-'] + padded2(
        d.day as nat,
    )
}

/// Relies on std's `SystemTime::now` and chrono's `DateTime::<Utc>::from_timestamp`
/// with `Datelike::year_ce`, `month` and `day`: today's date in UTC, with the year
/// counted from 1 and month and day in the ranges chrono documents. `None` where
/// the clock stands before 1970 or chrono has no date for it.
#[verifier::external_body]
pub(crate) fn utc_today() -> (r: Option<CalendarDate>)
    ensures
        r matches Some(d) ==> d.wf(),
{
    let since = std::time::SystemTime::now().duration_since(std::time::UNIX_EPOCH).ok()?;
    let now = chrono::DateTime::<chrono::Utc>::from_timestamp(since.as_secs() as i64, since.subsec_nanos())?;
    let (_, year) = chrono::Datelike::year_ce(&now);
    Some(CalendarDate { year, month: chrono::Datelike::month(&now), day: chrono::Datelike::day(&now) })
}

pub struct TaskRecordView {
    pub date: Seq<char>,
    pub length: Seq<char>,
    pub task: Seq<char>,
}

/// One finished work session: the day, its length in minutes and what was done.
#[derive(Debug)]
pub struct TaskRecord {
    date: String,
    length: String,
    task: String,
}

impl View for TaskRecord {
    type V = TaskRecordView;

    closed spec fn view(&self) -> TaskRecordView {
        TaskRecordView { date: self.date@, length: self.length@, task: self.task@ }
    }
}

impl TaskRecord {
    pub fn new(date: String, length: String, task: String) -> (r: TaskRecord)
        ensures
            r@ == (TaskRecordView { date: date@, length: length@, task: task@ }),
    {
        TaskRecord { date, length, task }
    }

    /// A record stamped with `date`.
    pub fn for_date(date: CalendarDate, length: String, task: String) -> (r: TaskRecord)
        ensures
            r@ == (TaskRecordView { date: date_text(date), length: length@, task: task@ }),
    {
        let mut text = String::new();
        append_decimal(&mut text, date.year as u128);
        text.append("-");
        append_padded2(&mut text, date.month as u128);
        text.append("-");
        append_padded2(&mut text, date.day as u128);
        proof {
            reveal_strlit("-");
            assert(text@ =~= date_text(date));
        }
        TaskRecord { date: text, length, task }
    }

    /// A record stamped with today's date in UTC; `None` where the system clock
    /// gives no date.
    pub fn for_today(length: String, task: String) -> (r: Option<TaskRecord>)
        ensures
            r matches Some(rec) ==> exists|d: CalendarDate|
                d.wf() && rec@ == (TaskRecordView { date: date_text(d), length: length@, task: task@ }),
    {
        match utc_today() {
            Some(today) => Some(TaskRecord::for_date(today, length, task)),
            None => None,
        }
    }

    pub fn date(&self) -> (r: &String)
        ensures
            r@ == self@.date,
    {
        &self.date
    }

    pub fn length(&self) -> (r: &String)
        ensures
            r@ == self@.length,
    {
        &self.length
    }

    pub fn task(&self) -> (r: &String)
        ensures
            r@ == self@.task,
    {
        &self.task
    }
}

} // verus!
