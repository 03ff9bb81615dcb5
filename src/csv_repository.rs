use crate::task_record::{TaskRecord, TaskRecordView};
use vstd::prelude::*;

verus! {

/// The records that csv's reader finds in `data` (no header handling), or
/// `None` where it reports an error.
pub uninterp spec fn csv_rows(data: Seq<u8>) -> Option<Seq<Seq<Seq<char>>>>;

/// The bytes that csv's writer produces for `rows`.
pub uninterp spec fn csv_text(rows: Seq<Seq<Seq<char>>>) -> Seq<u8>;

pub open spec fn rows_view(v: Seq<Vec<String>>) -> Seq<Seq<Seq<char>>> {
    v.map_values(|row: Vec<String>| row@.map_values(|f: String| f@))
}

/// Rows that csv's reader gives back exactly as its writer wrote them: all of one
/// nonzero length, the very first field not starting with a byte-order mark
/// (the reader strips one).
pub open spec fn reads_back(rows: Seq<Seq<Seq<char>>>) -> bool {
    rows.len() > 0 ==> {
        &&& rows[0].len() > 0
        &&& forall|i: int| 0 <= i < rows.len() ==> #[trigger] rows[i].len() == rows[0].len()
        &&& rows[0][0].len() > 0 ==> rows[0][0][0] != '\u{feff}'
    }
}

/// Relies on csv's `ReaderBuilder` (no header row, other settings left at their
/// defaults) and `StringRecord`: every record of `data` in order, its fields as
/// strings, or `None` where the reader reports an error.
#[verifier::external_body]
fn parse_csv(data: &[u8]) -> (r: Option<Vec<Vec<String>>>)
    ensures
        match r {
            Some(v) => csv_rows(data@) == Some(rows_view(v@)),
            None => csv_rows(data@) is None,
        },
{
    let mut reader = csv::ReaderBuilder::new().has_headers(false).from_reader(data);
    reader.records().map(|rec| rec.map(|rec| rec.iter().map(String::from).collect())).collect::<
        Result<Vec<Vec<String>>, csv::Error>,
    >().ok()
}

/// Relies on csv's `Writer::write_record` into memory, default settings: the
/// bytes written for `rows`. The writer quotes each field that holds a
/// delimiter, a quote or a line break, so its reader gives the rows back.
/// It refuses rows of unequal lengths, hence the requirement.
#[verifier::external_body]
fn format_csv(rows: &Vec<Vec<String>>) -> (r: Vec<u8>)
    requires
        forall|i: int| 0 <= i < rows.len() ==> #[trigger] rows[i].len() == rows[0].len(),
    ensures
        r@ == csv_text(rows_view(rows@)),
        reads_back(rows_view(rows@)) ==> csv_rows(r@) == Some(rows_view(rows@)),
{
    let mut writer = csv::Writer::from_writer(Vec::new());
    for row in rows {
        writer.write_record(row).expect("rows of one length");
    }
    writer.into_inner().expect("writing to memory does not fail")
}

pub open spec fn header_row() -> Seq<Seq<char>> {
    seq!["date"@, "length"@, "task"@]
}

pub open spec fn record_row(r: TaskRecordView) -> Seq<Seq<char>> {
    seq![r.date, r.length, r.task]
}

/// `k` is the one position of `name` in `header`.
pub open spec fn sole_column(header: Seq<Seq<char>>, name: Seq<char>, k: int) -> bool {
    &&& 0 <= k < header.len()
    &&& header[k] == name
    &&& forall|j: int| 0 <= j < header.len() && #[trigger] header[j] == name ==> j == k
}

pub open spec fn has_column(header: Seq<Seq<char>>, name: Seq<char>) -> bool {
    exists|k: int| sole_column(header, name, k)
}

pub open spec fn column(header: Seq<Seq<char>>, name: Seq<char>) -> int {
    choose|k: int| sole_column(header, name, k)
}

/// The record in `row`, its fields found by the names in `header`.
pub open spec fn row_record(header: Seq<Seq<char>>, row: Seq<Seq<char>>) -> TaskRecordView {
    TaskRecordView {
        date: row[column(header, "date"@)],
        length: row[column(header, "length"@)],
        task: row[column(header, "task"@)],
    }
}

pub open spec fn records_view(v: Seq<TaskRecord>) -> Seq<TaskRecordView> {
    v.map_values(|r: TaskRecord| r@)
}

/// The rows stored for `records`: the header, then one row per record.
pub open spec fn table_of(records: Seq<TaskRecordView>) -> Seq<Seq<Seq<char>>> {
    seq![header_row()] + records.map_values(|r: TaskRecordView| record_row(r))
}

/// The records that `rows` hold: none for no rows at all; else the first row is
/// a header that names each of `date`, `length` and `task` exactly once (other
/// columns are ignored), and every other row has as many fields as the header.
pub open spec fn records_in(rows: Seq<Seq<Seq<char>>>) -> Option<Seq<TaskRecordView>> {
    if rows.len() == 0 {
        Some(Seq::empty())
    } else if has_column(rows[0], "date"@) && has_column(rows[0], "length"@) && has_column(
        rows[0],
        "task"@,
    ) && forall|i: int| 1 <= i < rows.len() ==> #[trigger] rows[i].len() == rows[0].len() {
        Some(rows.drop_first().map_values(|row: Seq<Seq<char>>| row_record(rows[0], row)))
    } else {
        None
    }
}

/// The records of a records file's content, or `None` where it is malformed.
pub open spec fn records_of(data: Seq<u8>) -> Option<Seq<TaskRecordView>> {
    match csv_rows(data) {
        Some(rows) => records_in(rows),
        None => None,
    }
}

#[derive(Clone, Copy, Debug, PartialEq, Eq)]
pub enum RecordError {
    /// The content is not CSV, or not a header with rows of three fields.
    Malformed,
    /// The system clock gave no date to stamp a record with.
    NoDate,
}

/// The content of a records file, held in memory: reading parses it whole,
/// writing replaces it whole.
pub struct CsvRepository {
    data: Vec<u8>,
}

impl View for CsvRepository {
    type V = Seq<u8>;

    closed spec fn view(&self) -> Seq<u8> {
        self.data@
    }
}

fn header_strings() -> (r: Vec<String>)
    ensures
        r.len() == 3,
        r@.map_values(|f: String| f@) == header_row(),
{
    let v = vec![String::from_str("date"), String::from_str("length"), String::from_str("task")];
    assert(v@.map_values(|f: String| f@) =~= header_row());
    v
}

/// The one position of `name` in `header`, if it stands there exactly once.
fn find_column(header: &Vec<String>, name: &str) -> (r: Option<usize>)
    ensures
        match r {
            Some(k) => sole_column(header@.map_values(|f: String| f@), name@, k as int),
            None => !has_column(header@.map_values(|f: String| f@), name@),
        },
{
    let ghost hv = header@.map_values(|f: String| f@);
    let target = String::from_str(name);
    let mut found: Option<usize> = None;
    let mut i: usize = 0;
    while i < header.len()
        invariant
            i <= header.len(),
            hv == header@.map_values(|f: String| f@),
            target@ == name@,
            match found {
                Some(k) => k < i && hv[k as int] == name@ && forall|j: int|
                    0 <= j < i && #[trigger] hv[j] == name@ ==> j == k,
                None => forall|j: int| 0 <= j < i ==> #[trigger] hv[j] != name@,
            },
        decreases header.len() - i,
    {
        if header[i] == target {
            assert(hv[i as int] == name@);
            match found {
                Some(k) => {
                    assert forall|m: int| !sole_column(hv, name@, m) by {
                        if sole_column(hv, name@, m) {
                            assert(hv[k as int] == name@);
                            assert(hv[i as int] == name@);
                        }
                    }
                    return None;
                },
                None => {
                    found = Some(i);
                },
            }
        }
        i = i + 1;
    }
    if found.is_none() {
        assert forall|m: int| !sole_column(hv, name@, m) by {
            if sole_column(hv, name@, m) {
                assert(hv[m] == name@);
            }
        }
    }
    found
}

proof fn lemma_sole_column_unique(header: Seq<Seq<char>>, name: Seq<char>, k: int)
    requires
        sole_column(header, name, k),
    ensures
        has_column(header, name),
        column(header, name) == k,
{
    let c = column(header, name);
    assert(sole_column(header, name, c));
    assert(header[k] == name);
}

proof fn lemma_header_row_columns()
    ensures
        sole_column(header_row(), "date"@, 0),
        sole_column(header_row(), "length"@, 1),
        sole_column(header_row(), "task"@, 2),
{
    reveal_strlit("date");
    reveal_strlit("length");
    reveal_strlit("task");
    let h = header_row();
    assert(h[0].len() != h[1].len());
    assert(h[0][0] != h[2][0]);
    assert(h[1].len() != h[2].len());
}

/// Turning records into rows and reading the rows back gives the same records:
/// the header names each field once, and every row has three fields.
pub proof fn lemma_table_round_trip(recs: Seq<TaskRecordView>)
    ensures
        records_in(table_of(recs)) == Some(recs),
{
    let table = table_of(recs);
    lemma_header_row_columns();
    lemma_sole_column_unique(header_row(), "date"@, 0);
    lemma_sole_column_unique(header_row(), "length"@, 1);
    lemma_sole_column_unique(header_row(), "task"@, 2);
    assert(table[0] == header_row());
    assert(table.drop_first() =~= recs.map_values(|r: TaskRecordView| record_row(r)));
    assert(table.drop_first().map_values(|row: Seq<Seq<char>>| row_record(table[0], row)) =~= recs);
}

impl CsvRepository {
    pub fn new(data: Vec<u8>) -> (r: CsvRepository)
        ensures
            r@ == data@,
    {
        CsvRepository { data }
    }

    /// The bytes to store.
    pub fn contents(&self) -> (r: &Vec<u8>)
        ensures
            r@ == self@,
    {
        &self.data
    }

    /// All records, in the order stored.
    pub fn read(&self) -> (r: Result<Vec<TaskRecord>, RecordError>)
        ensures
            match r {
                Ok(v) => records_of(self@) == Some(records_view(v@)),
                Err(_) => records_of(self@) is None,
            },
    {
        let rows = match parse_csv(self.data.as_slice()) {
            Some(rows) => rows,
            None => {
                return Err(RecordError::Malformed);
            },
        };
        let ghost rv = rows_view(rows@);
        if rows.len() == 0 {
            assert(records_view(Seq::<TaskRecord>::empty()) =~= Seq::empty());
            return Ok(Vec::new());
        }
        let header = &rows[0];
        let (kd, kl, kt) = match (
            find_column(header, "date"),
            find_column(header, "length"),
            find_column(header, "task"),
        ) {
            (Some(kd), Some(kl), Some(kt)) => (kd, kl, kt),
            _ => {
                return Err(RecordError::Malformed);
            },
        };
        proof {
            lemma_sole_column_unique(rv[0], "date"@, kd as int);
            lemma_sole_column_unique(rv[0], "length"@, kl as int);
            lemma_sole_column_unique(rv[0], "task"@, kt as int);
        }
        let mut out: Vec<TaskRecord> = Vec::new();
        let mut i: usize = 1;
        while i < rows.len()
            invariant
                1 <= i <= rows.len(),
                rv == rows_view(rows@),
                csv_rows(self@) == Some(rv),
                header == rows[0],
                kd < header.len() && kd as int == column(rv[0], "date"@),
                kl < header.len() && kl as int == column(rv[0], "length"@),
                kt < header.len() && kt as int == column(rv[0], "task"@),
                has_column(rv[0], "date"@) && has_column(rv[0], "length"@) && has_column(rv[0], "task"@),
                forall|j: int| 1 <= j < i ==> #[trigger] rv[j].len() == rv[0].len(),
                out@.len() == i - 1,
                forall|j: int| 0 <= j < i - 1 ==> #[trigger] out@[j]@ == row_record(rv[0], rv[j + 1]),
            decreases rows.len() - i,
        {
            let row = &rows[i];
            if row.len() != header.len() {
                assert(rv[i as int].len() != rv[0].len());
                assert(records_in(rv) is None);
                return Err(RecordError::Malformed);
            }
            let rec = TaskRecord::new(row[kd].clone(), row[kl].clone(), row[kt].clone());
            out.push(rec);
            i = i + 1;
        }
        assert(records_view(out@) =~= rv.drop_first().map_values(
            |row: Seq<Seq<char>>| row_record(rv[0], row),
        ));
        Ok(out)
    }

    /// Replaces the content with the header and one row per record.
    pub fn write(&mut self, records: Vec<TaskRecord>)
        ensures
            final(self)@ == csv_text(table_of(records_view(records@))),
            records_of(final(self)@) == Some(records_view(records@)),
    {
        let mut rows: Vec<Vec<String>> = Vec::new();
        rows.push(header_strings());
        let mut i: usize = 0;
        while i < records.len()
            invariant
                i <= records.len(),
                rows@.len() == i + 1,
                rows_view(rows@) =~= table_of(records_view(records@.take(i as int))),
                forall|j: int| 0 <= j < rows.len() ==> #[trigger] rows[j].len() == 3,
            decreases records.len() - i,
        {
            let r = &records[i];
            let row = vec![r.date().clone(), r.length().clone(), r.task().clone()];
            let ghost old_rows = rows@;
            rows.push(row);
            proof {
                assert(rows@ == old_rows.push(row));
                assert(rows_view(rows@) =~= rows_view(old_rows).push(row@.map_values(|f: String| f@)));
                let prev = records_view(records@.take(i as int));
                assert(records@.take(i + 1) =~= records@.take(i as int).push(records@[i as int]));
                assert(records_view(records@.take(i + 1)) =~= prev.push(records@[i as int]@));
                assert(table_of(prev.push(records@[i as int]@)) =~= table_of(prev).push(
                    record_row(records@[i as int]@),
                ));
                assert(row@.map_values(|f: String| f@) =~= record_row(records@[i as int]@));
            }
            i = i + 1;
        }
        assert(records@.take(records.len() as int) =~= records@);
        let ghost table = table_of(records_view(records@));
        proof {
            reveal_strlit("date");
            assert(table[0][0] == "date"@);
        }
        self.data = format_csv(&rows);
        proof {
            lemma_table_round_trip(records_view(records@));
        }
    }
}

} // verus!
