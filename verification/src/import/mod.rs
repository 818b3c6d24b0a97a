//! The CSV import formats: which columns a file must carry, and the rows
//! they denote.

pub mod run;

use vstd::prelude::*;
use crate::table::{column_of, csv_read, find_column, read_table, texts, Column, CsvTable};
use crate::import::run::{ImportAction, ImportRow, ImportRowView, ImportRun, ImportRunView};
use crate::values::{parse_date, parse_decimal, spec_parse_date, spec_parse_decimal, Date, Decimal};

verus! {

/// A row of a meter import: `name,unit`.
#[derive(Clone, Debug, PartialEq, Eq)]
pub struct MeterCsvRow {
    pub name: String,
    pub unit: String,
}

pub struct MeterRowView {
    pub name: Seq<char>,
    pub unit: Seq<char>,
}

impl View for MeterCsvRow {
    type V = MeterRowView;

    open spec fn view(&self) -> MeterRowView {
        MeterRowView { name: self.name@, unit: self.unit@ }
    }
}

/// A row of a meter-instance import:
/// `meter_name,meter_number,initial_reading,initial_reading_date,installed_at`
/// and, where the file has that column, `removed_at` (empty: still active).
#[derive(Clone, Debug, PartialEq, Eq)]
pub struct MeterInstanceCsvRow {
    pub meter_name: String,
    pub meter_number: String,
    pub initial_reading: Decimal,
    pub initial_reading_date: Date,
    pub installed_at: Date,
    pub removed_at: Option<Date>,
}

pub struct MeterInstanceRowView {
    pub meter_name: Seq<char>,
    pub meter_number: Seq<char>,
    pub initial_reading: Decimal,
    pub initial_reading_date: Date,
    pub installed_at: Date,
    pub removed_at: Option<Date>,
}

impl View for MeterInstanceCsvRow {
    type V = MeterInstanceRowView;

    open spec fn view(&self) -> MeterInstanceRowView {
        MeterInstanceRowView {
            meter_name: self.meter_name@,
            meter_number: self.meter_number@,
            initial_reading: self.initial_reading,
            initial_reading_date: self.initial_reading_date,
            installed_at: self.installed_at,
            removed_at: self.removed_at,
        }
    }
}

/// Why an import file is refused. Data rows are counted from 0.
#[derive(Debug)]
pub enum ImportError {
    /// The csv reader refused the document.
    Csv(csv::Error),
    /// No header names a column that the rows need.
    MissingColumn(String),
    /// Several headers name the same needed column.
    RepeatedColumn(String),
    /// A row read by position has too few fields.
    ShortRow { row: usize },
    /// A field that must hold a decimal number does not.
    InvalidNumber { row: usize, column: String },
    /// A field that must hold a date does not.
    InvalidDate { row: usize, column: String },
}

/// The content of an `ImportError`.
pub enum ImportFault {
    Malformed,
    MissingColumn(Seq<char>),
    RepeatedColumn(Seq<char>),
    ShortRow { row: int },
    InvalidNumber { row: int, column: Seq<char> },
    InvalidDate { row: int, column: Seq<char> },
}

impl ImportError {
    pub open spec fn fault(&self) -> ImportFault {
        match self {
            ImportError::Csv(_) => ImportFault::Malformed,
            ImportError::MissingColumn(c) => ImportFault::MissingColumn(c@),
            ImportError::RepeatedColumn(c) => ImportFault::RepeatedColumn(c@),
            ImportError::ShortRow { row } => ImportFault::ShortRow { row: *row as int },
            ImportError::InvalidNumber { row, column } => ImportFault::InvalidNumber {
                row: *row as int,
                column: column@,
            },
            ImportError::InvalidDate { row, column } => ImportFault::InvalidDate {
                row: *row as int,
                column: column@,
            },
        }
    }
}

/// The column headed `name`, which the rows need exactly once.
pub open spec fn required_column(headers: Seq<Seq<char>>, name: Seq<char>) -> Result<usize, ImportFault> {
    match column_of(headers, name) {
        Column::At(i) => Ok(i),
        Column::Missing => Err(ImportFault::MissingColumn(name)),
        Column::Repeated => Err(ImportFault::RepeatedColumn(name)),
    }
}

/// The column headed `name`, which the rows may carry once or not at all.
pub open spec fn optional_column(headers: Seq<Seq<char>>, name: Seq<char>) -> Result<Option<usize>, ImportFault> {
    match column_of(headers, name) {
        Column::At(i) => Ok(Some(i)),
        Column::Missing => Ok(None),
        Column::Repeated => Err(ImportFault::RepeatedColumn(name)),
    }
}

fn require_column(headers: &Vec<String>, name: &str) -> (res: Result<usize, ImportError>)
    ensures
        match res {
            Ok(i) => required_column(texts(headers@), name@) == Ok::<usize, ImportFault>(i),
            Err(e) => required_column(texts(headers@), name@) == Err::<usize, ImportFault>(e.fault()),
        },
{
    match find_column(headers, name) {
        Column::At(i) => Ok(i),
        Column::Missing => Err(ImportError::MissingColumn(String::from_str(name))),
        Column::Repeated => Err(ImportError::RepeatedColumn(String::from_str(name))),
    }
}

fn allow_column(headers: &Vec<String>, name: &str) -> (res: Result<Option<usize>, ImportError>)
    ensures
        match res {
            Ok(i) => optional_column(texts(headers@), name@) == Ok::<Option<usize>, ImportFault>(i),
            Err(e) => optional_column(texts(headers@), name@) == Err::<Option<usize>, ImportFault>(
                e.fault(),
            ),
        },
{
    match find_column(headers, name) {
        Column::At(i) => Ok(Some(i)),
        Column::Missing => Ok(None),
        Column::Repeated => Err(ImportError::RepeatedColumn(String::from_str(name))),
    }
}

/// The date in field `column` of data row `row`, or the error that names it.
pub open spec fn date_field(text: Seq<char>, row: int, column: Seq<char>) -> Result<Date, ImportFault> {
    match spec_parse_date(text) {
        Some(d) => Ok(d),
        None => Err(ImportFault::InvalidDate { row, column }),
    }
}

fn read_date_field(text: &String, row: usize, column: &str) -> (res: Result<Date, ImportError>)
    ensures
        match res {
            Ok(d) => date_field(text@, row as int, column@) == Ok::<Date, ImportFault>(d),
            Err(e) => date_field(text@, row as int, column@) == Err::<Date, ImportFault>(e.fault()),
        },
{
    match parse_date(text.as_str()) {
        Some(d) => Ok(d),
        None => Err(ImportError::InvalidDate { row, column: String::from_str(column) }),
    }
}

// ---------------------------------------------------------------------------
// Meters: `name,unit`
// ---------------------------------------------------------------------------

/// Where the columns of a meter import stand.
#[derive(Clone, Copy, Debug, PartialEq, Eq, Structural)]
pub struct MeterColumns {
    pub name: usize,
    pub unit: usize,
}

impl MeterColumns {
    /// Every column lies within rows of `width` fields.
    pub open spec fn fits(&self, width: int) -> bool {
        &&& self.name < width
        &&& self.unit < width
    }
}

/// The columns of a meter import: found by header name, or, where the
/// header row could not be read as text, the first two fields in the
/// order `name,unit`.
pub open spec fn meter_columns(headers: Option<Seq<Seq<char>>>) -> Result<MeterColumns, ImportFault> {
    match headers {
        None => Ok(MeterColumns { name: 0, unit: 1 }),
        Some(h) => match required_column(h, "name"@) {
            Err(e) => Err(e),
            Ok(n) => match required_column(h, "unit"@) {
                Err(e) => Err(e),
                Ok(u) => Ok(MeterColumns { name: n, unit: u }),
            },
        },
    }
}

/// The meter that data row `row` (with fields `r`) denotes.
pub open spec fn meter_row(r: Seq<Seq<char>>, c: MeterColumns, row: int) -> Result<MeterRowView, ImportFault> {
    if !c.fits(r.len() as int) {
        Err(ImportFault::ShortRow { row })
    } else {
        Ok(MeterRowView { name: r[c.name as int], unit: r[c.unit as int] })
    }
}

/// The meters that `rows` denote, the first of them being data row
/// `first`: the error of the earliest row that has one, else every row's
/// meter in order.
pub open spec fn meter_rows_from(rows: Seq<Seq<Seq<char>>>, c: MeterColumns, first: int) -> Result<Seq<MeterRowView>, ImportFault>
    decreases rows.len(),
{
    if rows.len() == 0 {
        Ok(Seq::empty())
    } else {
        match meter_row(rows[0], c, first) {
            Err(e) => Err(e),
            Ok(v) => match meter_rows_from(rows.drop_first(), c, first + 1) {
                Err(e) => Err(e),
                Ok(vs) => Ok(seq![v] + vs),
            },
        }
    }
}

/// The meter rows a table denotes. A table without data rows denotes none,
/// whatever its headers; otherwise it needs the columns `name` and `unit`.
pub open spec fn meter_rows(headers: Option<Seq<Seq<char>>>, rows: Seq<Seq<Seq<char>>>) -> Result<Seq<MeterRowView>, ImportFault> {
    if rows.len() == 0 {
        Ok(Seq::empty())
    } else {
        match meter_columns(headers) {
            Err(e) => Err(e),
            Ok(c) => meter_rows_from(rows, c, 0),
        }
    }
}

/// The meter rows a CSV document denotes.
pub open spec fn meter_import(data: Seq<u8>) -> Result<Seq<MeterRowView>, ImportFault> {
    match csv_read(data) {
        None => Err(ImportFault::Malformed),
        Some(table) => meter_rows(table.0, table.1),
    }
}

pub open spec fn meter_rows_view(res: Result<Vec<MeterCsvRow>, ImportError>) -> Result<Seq<MeterRowView>, ImportFault> {
    match res {
        Ok(v) => Ok(v@.map_values(|r: MeterCsvRow| r@)),
        Err(e) => Err(e.fault()),
    }
}

fn find_meter_columns(table: &CsvTable) -> (res: Result<MeterColumns, ImportError>)
    ensures
        match res {
            Ok(c) => meter_columns(table.header_texts()) == Ok::<MeterColumns, ImportFault>(c),
            Err(e) => meter_columns(table.header_texts()) == Err::<MeterColumns, ImportFault>(
                e.fault(),
            ),
        },
{
    match &table.headers {
        None => Ok(MeterColumns { name: 0, unit: 1 }),
        Some(h) => {
            let name = require_column(h, "name")?;
            let unit = require_column(h, "unit")?;
            Ok(MeterColumns { name, unit })
        },
    }
}

fn parse_meter_row(r: &Vec<String>, c: MeterColumns, row: usize) -> (res: Result<MeterCsvRow, ImportError>)
    ensures
        match res {
            Ok(v) => meter_row(texts(r@), c, row as int) == Ok::<MeterRowView, ImportFault>(v@),
            Err(e) => meter_row(texts(r@), c, row as int) == Err::<MeterRowView, ImportFault>(e.fault()),
        },
{
    let ghost t = texts(r@);
    if !(c.name < r.len() && c.unit < r.len()) {
        return Err(ImportError::ShortRow { row });
    }
    let v = MeterCsvRow { name: r[c.name].clone(), unit: r[c.unit].clone() };
    assert(t[c.name as int] == r@[c.name as int]@);
    assert(t[c.unit as int] == r@[c.unit as int]@);
    Ok(v)
}

/// The meter rows of a table that csv's reader produced.
pub fn parse_meter_rows(table: &CsvTable) -> (res: Result<Vec<MeterCsvRow>, ImportError>)
    ensures
        meter_rows_view(res) == meter_rows(table.header_texts(), table.row_texts()),
{
    let mut out: Vec<MeterCsvRow> = Vec::new();
    if table.rows.len() == 0 {
        assert(out@.map_values(|r: MeterCsvRow| r@) =~= Seq::<MeterRowView>::empty());
        return Ok(out);
    }
    let c = match find_meter_columns(table) {
        Ok(c) => c,
        Err(e) => return Err(e),
    };
    let ghost all = table.row_texts();
    proof {
        assert(all.skip(0) =~= all);
        if let Ok(vs) = meter_rows_from(all, c, 0) {
            assert(out@.map_values(|r: MeterCsvRow| r@) + vs =~= vs);
        }
    }
    let mut i: usize = 0;
    while i < table.rows.len()
        invariant
            i <= table.rows@.len(),
            all == table.row_texts(),
            meter_columns(table.header_texts()) == Ok::<MeterColumns, ImportFault>(c),
            meter_rows_from(all, c, 0) == match meter_rows_from(all.skip(i as int), c, i as int) {
                Ok(vs) => Ok(out@.map_values(|r: MeterCsvRow| r@) + vs),
                Err(e) => Err::<Seq<MeterRowView>, ImportFault>(e),
            },
        decreases table.rows.len() - i,
    {
        let row = &table.rows[i];
        let ghost rest = all.skip(i as int);
        assert(rest.len() > 0);
        assert(rest[0] == texts(row@));
        assert(rest.drop_first() =~= all.skip(i + 1));
        match parse_meter_row(row, c, i) {
            Ok(v) => {
                let ghost before = out@;
                out.push(v);
                proof {
                    assert(out@.map_values(|r: MeterCsvRow| r@) =~= before.map_values(
                        |r: MeterCsvRow| r@,
                    ).push(v@));
                    match meter_rows_from(all.skip(i + 1), c, i + 1) {
                        Ok(vs) => {
                            assert(before.map_values(|r: MeterCsvRow| r@) + (seq![v@] + vs)
                                =~= out@.map_values(|r: MeterCsvRow| r@) + vs);
                        },
                        Err(_) => {},
                    }
                }
            },
            Err(e) => {
                assert(meter_rows_from(rest, c, i as int) == Err::<Seq<MeterRowView>, ImportFault>(
                    e.fault(),
                ));
                return Err(e);
            },
        }
        i = i + 1;
    }
    assert(all.skip(table.rows@.len() as int) =~= Seq::<Seq<Seq<char>>>::empty());
    assert(out@.map_values(|r: MeterCsvRow| r@) + Seq::<MeterRowView>::empty()
        =~= out@.map_values(|r: MeterCsvRow| r@));
    Ok(out)
}

/// Reads a meter import file.
pub fn read_meter_rows(data: &[u8]) -> (res: Result<Vec<MeterCsvRow>, ImportError>)
    ensures
        meter_rows_view(res) == meter_import(data@),
{
    match read_table(data) {
        Ok(table) => parse_meter_rows(&table),
        Err(e) => Err(ImportError::Csv(e)),
    }
}

/// An accepted meter file yields one meter per data row, in file order:
/// row `i` is the meter that data row `first + i` denotes.
pub proof fn lemma_meter_rows_one_per_row(rows: Seq<Seq<Seq<char>>>, c: MeterColumns, first: int)
    requires
        meter_rows_from(rows, c, first) is Ok,
    ensures
        meter_rows_from(rows, c, first)->Ok_0.len() == rows.len(),
        forall|i: int| 0 <= i < rows.len() ==> meter_row(rows[i], c, first + i)
            == Ok::<MeterRowView, ImportFault>(#[trigger] meter_rows_from(rows, c, first)->Ok_0[i]),
    decreases rows.len(),
{
    if rows.len() > 0 {
        let rest = rows.drop_first();
        lemma_meter_rows_one_per_row(rest, c, first + 1);
        let vs = meter_rows_from(rows, c, first)->Ok_0;
        assert forall|i: int| 0 <= i < rows.len() implies meter_row(rows[i], c, first + i)
            == Ok::<MeterRowView, ImportFault>(#[trigger] vs[i]) by {
            if i > 0 {
                assert(rows[i] == rest[i - 1]);
                assert(vs[i] == meter_rows_from(rest, c, first + 1)->Ok_0[i - 1]);
            }
        }
    }
}

/// A meter file whose header row names the columns, and that has data
/// rows, is refused where it lacks the `name` or the `unit` column, or
/// names one of them twice: no meter of it is stored.
pub proof fn lemma_meter_file_needs_both_columns(headers: Seq<Seq<char>>, rows: Seq<Seq<Seq<char>>>)
    requires
        rows.len() > 0,
        !(column_of(headers, "name"@) is At) || !(column_of(headers, "unit"@) is At),
    ensures
        meter_rows(Some(headers), rows) is Err,
{
}

// ---------------------------------------------------------------------------
// Meter instances:
// `meter_name,meter_number,initial_reading,initial_reading_date,installed_at[,removed_at]`
// ---------------------------------------------------------------------------

/// Where the columns of a meter-instance import stand.
#[derive(Clone, Copy, Debug, PartialEq, Eq, Structural)]
pub struct InstanceColumns {
    pub meter_name: usize,
    pub meter_number: usize,
    pub initial_reading: usize,
    pub initial_reading_date: usize,
    pub installed_at: usize,
    pub removed_at: Option<usize>,
}

impl InstanceColumns {
    /// Every column lies within rows of `width` fields.
    pub open spec fn fits(&self, width: int) -> bool {
        &&& self.meter_name < width
        &&& self.meter_number < width
        &&& self.initial_reading < width
        &&& self.initial_reading_date < width
        &&& self.installed_at < width
        &&& self.removed_at matches Some(c) ==> c < width
    }
}

/// The columns of a meter-instance import: found by header name, in the
/// order in which they are listed; or, where the header row could not be
/// read as text, the first five fields in that order, with no removal date.
pub open spec fn instance_columns(headers: Option<Seq<Seq<char>>>) -> Result<InstanceColumns, ImportFault> {
    match headers {
        None => Ok(
            InstanceColumns {
                meter_name: 0,
                meter_number: 1,
                initial_reading: 2,
                initial_reading_date: 3,
                installed_at: 4,
                removed_at: None,
            },
        ),
        Some(h) => match required_column(h, "meter_name"@) {
            Err(e) => Err(e),
            Ok(a) => match required_column(h, "meter_number"@) {
                Err(e) => Err(e),
                Ok(b) => match required_column(h, "initial_reading"@) {
                    Err(e) => Err(e),
                    Ok(c) => match required_column(h, "initial_reading_date"@) {
                        Err(e) => Err(e),
                        Ok(d) => match required_column(h, "installed_at"@) {
                            Err(e) => Err(e),
                            Ok(f) => match optional_column(h, "removed_at"@) {
                                Err(e) => Err(e),
                                Ok(g) => Ok(
                                    InstanceColumns {
                                        meter_name: a,
                                        meter_number: b,
                                        initial_reading: c,
                                        initial_reading_date: d,
                                        installed_at: f,
                                        removed_at: g,
                                    },
                                ),
                            },
                        },
                    },
                },
            },
        },
    }
}

/// The removal date of a row: none where the file has no `removed_at`
/// column or the field is empty, else the date the field holds.
pub open spec fn removal_field(r: Seq<Seq<char>>, c: Option<usize>, row: int) -> Result<Option<Date>, ImportFault> {
    match c {
        None => Ok(None),
        Some(i) => if r[i as int].len() == 0 {
            Ok(None)
        } else {
            match date_field(r[i as int], row, "removed_at"@) {
                Ok(d) => Ok(Some(d)),
                Err(e) => Err(e),
            }
        },
    }
}

/// The meter instance that data row `row` (with fields `r`) denotes; its
/// typed fields are read in the order in which they are listed.
pub open spec fn instance_row(r: Seq<Seq<char>>, c: InstanceColumns, row: int) -> Result<MeterInstanceRowView, ImportFault> {
    if !c.fits(r.len() as int) {
        Err(ImportFault::ShortRow { row })
    } else {
        match spec_parse_decimal(r[c.initial_reading as int]) {
            None => Err(ImportFault::InvalidNumber { row, column: "initial_reading"@ }),
            Some(reading) => match date_field(r[c.initial_reading_date as int], row, "initial_reading_date"@) {
                Err(e) => Err(e),
                Ok(reading_date) => match date_field(r[c.installed_at as int], row, "installed_at"@) {
                    Err(e) => Err(e),
                    Ok(installed) => match removal_field(r, c.removed_at, row) {
                        Err(e) => Err(e),
                        Ok(removed) => Ok(
                            MeterInstanceRowView {
                                meter_name: r[c.meter_name as int],
                                meter_number: r[c.meter_number as int],
                                initial_reading: reading,
                                initial_reading_date: reading_date,
                                installed_at: installed,
                                removed_at: removed,
                            },
                        ),
                    },
                },
            },
        }
    }
}

/// The instances that `rows` denote, the first of them being data row
/// `first`: the error of the earliest row that has one, else every row's
/// instance in order.
pub open spec fn instance_rows(rows: Seq<Seq<Seq<char>>>, c: InstanceColumns, first: int) -> Result<Seq<MeterInstanceRowView>, ImportFault>
    decreases rows.len(),
{
    if rows.len() == 0 {
        Ok(Seq::empty())
    } else {
        match instance_row(rows[0], c, first) {
            Err(e) => Err(e),
            Ok(v) => match instance_rows(rows.drop_first(), c, first + 1) {
                Err(e) => Err(e),
                Ok(vs) => Ok(seq![v] + vs),
            },
        }
    }
}

/// The meter-instance rows a table denotes. A table without data rows
/// denotes none, whatever its headers.
pub open spec fn meter_instance_rows(headers: Option<Seq<Seq<char>>>, rows: Seq<Seq<Seq<char>>>) -> Result<Seq<MeterInstanceRowView>, ImportFault> {
    if rows.len() == 0 {
        Ok(Seq::empty())
    } else {
        match instance_columns(headers) {
            Err(e) => Err(e),
            Ok(c) => instance_rows(rows, c, 0),
        }
    }
}

/// The meter-instance rows a CSV document denotes.
pub open spec fn meter_instance_import(data: Seq<u8>) -> Result<Seq<MeterInstanceRowView>, ImportFault> {
    match csv_read(data) {
        None => Err(ImportFault::Malformed),
        Some(table) => meter_instance_rows(table.0, table.1),
    }
}

pub open spec fn instance_rows_view(res: Result<Vec<MeterInstanceCsvRow>, ImportError>) -> Result<Seq<MeterInstanceRowView>, ImportFault> {
    match res {
        Ok(v) => Ok(v@.map_values(|r: MeterInstanceCsvRow| r@)),
        Err(e) => Err(e.fault()),
    }
}

fn find_instance_columns(table: &CsvTable) -> (res: Result<InstanceColumns, ImportError>)
    ensures
        match res {
            Ok(c) => instance_columns(table.header_texts()) == Ok::<InstanceColumns, ImportFault>(c),
            Err(e) => instance_columns(table.header_texts()) == Err::<InstanceColumns, ImportFault>(
                e.fault(),
            ),
        },
{
    match &table.headers {
        None => Ok(
            InstanceColumns {
                meter_name: 0,
                meter_number: 1,
                initial_reading: 2,
                initial_reading_date: 3,
                installed_at: 4,
                removed_at: None,
            },
        ),
        Some(headers) => {
            let meter_name = require_column(headers, "meter_name")?;
            let meter_number = require_column(headers, "meter_number")?;
            let initial_reading = require_column(headers, "initial_reading")?;
            let initial_reading_date = require_column(headers, "initial_reading_date")?;
            let installed_at = require_column(headers, "installed_at")?;
            let removed_at = allow_column(headers, "removed_at")?;
            Ok(
                InstanceColumns {
                    meter_name,
                    meter_number,
                    initial_reading,
                    initial_reading_date,
                    installed_at,
                    removed_at,
                },
            )
        },
    }
}

fn parse_instance_row(r: &Vec<String>, c: InstanceColumns, row: usize) -> (res: Result<MeterInstanceCsvRow, ImportError>)
    ensures
        match res {
            Ok(v) => instance_row(texts(r@), c, row as int) == Ok::<MeterInstanceRowView, ImportFault>(v@),
            Err(e) => instance_row(texts(r@), c, row as int) == Err::<MeterInstanceRowView, ImportFault>(
                e.fault(),
            ),
        },
{
    let ghost t = texts(r@);
    let width = r.len();
    let fits = c.meter_name < width && c.meter_number < width && c.initial_reading < width
        && c.initial_reading_date < width && c.installed_at < width && match c.removed_at {
        Some(i) => i < width,
        None => true,
    };
    if !fits {
        return Err(ImportError::ShortRow { row });
    }
    let initial_reading = match parse_decimal(r[c.initial_reading].as_str()) {
        Some(d) => d,
        None => {
            return Err(
                ImportError::InvalidNumber { row, column: String::from_str("initial_reading") },
            );
        },
    };
    let initial_reading_date = read_date_field(&r[c.initial_reading_date], row, "initial_reading_date")?;
    let installed_at = read_date_field(&r[c.installed_at], row, "installed_at")?;
    let removed_at = match c.removed_at {
        None => None,
        Some(i) => {
            if r[i].as_str().is_empty() {
                None
            } else {
                Some(read_date_field(&r[i], row, "removed_at")?)
            }
        },
    };
    let v = MeterInstanceCsvRow {
        meter_name: r[c.meter_name].clone(),
        meter_number: r[c.meter_number].clone(),
        initial_reading,
        initial_reading_date,
        installed_at,
        removed_at,
    };
    assert(t[c.meter_name as int] == r@[c.meter_name as int]@);
    assert(t[c.meter_number as int] == r@[c.meter_number as int]@);
    Ok(v)
}

/// The meter-instance rows of a table that csv's reader produced.
pub fn parse_meter_instance_rows(table: &CsvTable) -> (res: Result<Vec<MeterInstanceCsvRow>, ImportError>)
    ensures
        instance_rows_view(res) == meter_instance_rows(table.header_texts(), table.row_texts()),
{
    let mut out: Vec<MeterInstanceCsvRow> = Vec::new();
    if table.rows.len() == 0 {
        assert(out@.map_values(|r: MeterInstanceCsvRow| r@) =~= Seq::<MeterInstanceRowView>::empty());
        return Ok(out);
    }
    let c = match find_instance_columns(table) {
        Ok(c) => c,
        Err(e) => return Err(e),
    };
    let ghost all = table.row_texts();
    proof {
        assert(all.skip(0) =~= all);
        if let Ok(vs) = instance_rows(all, c, 0) {
            assert(out@.map_values(|r: MeterInstanceCsvRow| r@) + vs =~= vs);
        }
    }
    let mut i: usize = 0;
    while i < table.rows.len()
        invariant
            i <= table.rows@.len(),
            all == table.row_texts(),
            instance_columns(table.header_texts()) == Ok::<InstanceColumns, ImportFault>(c),
            instance_rows(all, c, 0) == match instance_rows(all.skip(i as int), c, i as int) {
                Ok(vs) => Ok(out@.map_values(|r: MeterInstanceCsvRow| r@) + vs),
                Err(e) => Err::<Seq<MeterInstanceRowView>, ImportFault>(e),
            },
        decreases table.rows.len() - i,
    {
        let row = &table.rows[i];
        let ghost rest = all.skip(i as int);
        assert(rest.len() > 0);
        assert(rest[0] == texts(row@));
        assert(rest.drop_first() =~= all.skip(i + 1));
        match parse_instance_row(row, c, i) {
            Ok(v) => {
                let ghost before = out@;
                out.push(v);
                proof {
                    assert(out@.map_values(|r: MeterInstanceCsvRow| r@) =~= before.map_values(
                        |r: MeterInstanceCsvRow| r@,
                    ).push(v@));
                    match instance_rows(all.skip(i + 1), c, i + 1) {
                        Ok(vs) => {
                            assert(before.map_values(|r: MeterInstanceCsvRow| r@) + (seq![v@] + vs)
                                =~= out@.map_values(|r: MeterInstanceCsvRow| r@) + vs);
                        },
                        Err(_) => {},
                    }
                }
            },
            Err(e) => {
                assert(instance_rows(rest, c, i as int) == Err::<Seq<MeterInstanceRowView>, ImportFault>(
                    e.fault(),
                ));
                return Err(e);
            },
        }
        i = i + 1;
    }
    assert(all.skip(table.rows@.len() as int) =~= Seq::<Seq<Seq<char>>>::empty());
    assert(out@.map_values(|r: MeterInstanceCsvRow| r@) + Seq::<MeterInstanceRowView>::empty()
        =~= out@.map_values(|r: MeterInstanceCsvRow| r@));
    Ok(out)
}

/// Reads a meter-instance import file.
pub fn read_meter_instance_rows(data: &[u8]) -> (res: Result<Vec<MeterInstanceCsvRow>, ImportError>)
    ensures
        instance_rows_view(res) == meter_instance_import(data@),
{
    match read_table(data) {
        Ok(table) => parse_meter_instance_rows(&table),
        Err(e) => Err(ImportError::Csv(e)),
    }
}

/// An accepted meter-instance file yields one instance per data row, in
/// file order: row `i` is the instance that data row `first + i` denotes.
pub proof fn lemma_instance_rows_one_per_row(rows: Seq<Seq<Seq<char>>>, c: InstanceColumns, first: int)
    requires
        instance_rows(rows, c, first) is Ok,
    ensures
        instance_rows(rows, c, first)->Ok_0.len() == rows.len(),
        forall|i: int| 0 <= i < rows.len() ==> instance_row(rows[i], c, first + i)
            == Ok::<MeterInstanceRowView, ImportFault>(
            #[trigger] instance_rows(rows, c, first)->Ok_0[i],
        ),
    decreases rows.len(),
{
    if rows.len() > 0 {
        let rest = rows.drop_first();
        lemma_instance_rows_one_per_row(rest, c, first + 1);
        let vs = instance_rows(rows, c, first)->Ok_0;
        assert forall|i: int| 0 <= i < rows.len() implies instance_row(rows[i], c, first + i)
            == Ok::<MeterInstanceRowView, ImportFault>(#[trigger] vs[i]) by {
            if i > 0 {
                assert(rows[i] == rest[i - 1]);
                assert(vs[i] == instance_rows(rest, c, first + 1)->Ok_0[i - 1]);
            }
        }
    }
}

/// A meter-instance file without a `removed_at` column installs active
/// meters only: no instance it yields has a removal date.
pub proof fn lemma_no_removal_column_means_active(headers: Option<Seq<Seq<char>>>, rows: Seq<Seq<Seq<char>>>)
    requires
        headers matches Some(h) ==> column_of(h, "removed_at"@) is Missing,
        meter_instance_rows(headers, rows) is Ok,
    ensures
        forall|i: int| 0 <= i < rows.len() ==> (#[trigger] meter_instance_rows(headers, rows)->Ok_0[i]).removed_at is None,
{
    if rows.len() > 0 {
        let c = instance_columns(headers)->Ok_0;
        assert(c.removed_at is None);
        lemma_instance_rows_one_per_row(rows, c, 0);
        assert forall|i: int| 0 <= i < rows.len() implies (#[trigger] meter_instance_rows(headers, rows)->Ok_0[i]).removed_at is None by {
            assert(instance_row(rows[i], c, i) == Ok::<MeterInstanceRowView, ImportFault>(
                instance_rows(rows, c, 0)->Ok_0[i],
            ));
        }
    }
}

// ---------------------------------------------------------------------------
// Readings: `meter_number,reading_date,value`
// ---------------------------------------------------------------------------

/// A row of a reading import: the number of the physical meter read, the
/// date and the value.
#[derive(Clone, Debug, PartialEq, Eq)]
pub struct ReadingCsvRow {
    pub meter_number: String,
    pub reading_date: Date,
    pub value: Decimal,
}

pub struct ReadingRowView {
    pub meter_number: Seq<char>,
    pub reading_date: Date,
    pub value: Decimal,
}

impl View for ReadingCsvRow {
    type V = ReadingRowView;

    open spec fn view(&self) -> ReadingRowView {
        ReadingRowView {
            meter_number: self.meter_number@,
            reading_date: self.reading_date,
            value: self.value,
        }
    }
}

/// Where the columns of a reading import stand.
#[derive(Clone, Copy, Debug, PartialEq, Eq, Structural)]
pub struct ReadingColumns {
    pub meter_number: usize,
    pub reading_date: usize,
    pub value: usize,
}

impl ReadingColumns {
    pub open spec fn fits(&self, width: int) -> bool {
        &&& self.meter_number < width
        &&& self.reading_date < width
        &&& self.value < width
    }
}

/// The columns of a reading import: found by header name, in the order
/// listed; or, where the header row could not be read as text, the first
/// three fields in that order.
pub open spec fn reading_columns(headers: Option<Seq<Seq<char>>>) -> Result<ReadingColumns, ImportFault> {
    match headers {
        None => Ok(ReadingColumns { meter_number: 0, reading_date: 1, value: 2 }),
        Some(h) => match required_column(h, "meter_number"@) {
            Err(e) => Err(e),
            Ok(a) => match required_column(h, "reading_date"@) {
                Err(e) => Err(e),
                Ok(b) => match required_column(h, "value"@) {
                    Err(e) => Err(e),
                    Ok(c) => Ok(ReadingColumns { meter_number: a, reading_date: b, value: c }),
                },
            },
        },
    }
}

/// The reading that data row `row` (with fields `r`) denotes; the date is
/// read before the value.
pub open spec fn reading_row(r: Seq<Seq<char>>, c: ReadingColumns, row: int) -> Result<ReadingRowView, ImportFault> {
    if !c.fits(r.len() as int) {
        Err(ImportFault::ShortRow { row })
    } else {
        match date_field(r[c.reading_date as int], row, "reading_date"@) {
            Err(e) => Err(e),
            Ok(d) => match spec_parse_decimal(r[c.value as int]) {
                None => Err(ImportFault::InvalidNumber { row, column: "value"@ }),
                Some(v) => Ok(ReadingRowView { meter_number: r[c.meter_number as int], reading_date: d, value: v }),
            },
        }
    }
}

/// The readings that `rows` denote, the first of them being data row
/// `first`: the error of the earliest row that has one, else every row's
/// reading in order.
pub open spec fn reading_rows(rows: Seq<Seq<Seq<char>>>, c: ReadingColumns, first: int) -> Result<Seq<ReadingRowView>, ImportFault>
    decreases rows.len(),
{
    if rows.len() == 0 {
        Ok(Seq::empty())
    } else {
        match reading_row(rows[0], c, first) {
            Err(e) => Err(e),
            Ok(v) => match reading_rows(rows.drop_first(), c, first + 1) {
                Err(e) => Err(e),
                Ok(vs) => Ok(seq![v] + vs),
            },
        }
    }
}

/// The reading rows a table denotes. A table without data rows denotes
/// none, whatever its headers.
pub open spec fn reading_table_rows(headers: Option<Seq<Seq<char>>>, rows: Seq<Seq<Seq<char>>>) -> Result<Seq<ReadingRowView>, ImportFault> {
    if rows.len() == 0 {
        Ok(Seq::empty())
    } else {
        match reading_columns(headers) {
            Err(e) => Err(e),
            Ok(c) => reading_rows(rows, c, 0),
        }
    }
}

/// The reading rows a CSV document denotes.
pub open spec fn reading_import(data: Seq<u8>) -> Result<Seq<ReadingRowView>, ImportFault> {
    match csv_read(data) {
        None => Err(ImportFault::Malformed),
        Some(table) => reading_table_rows(table.0, table.1),
    }
}

pub open spec fn reading_rows_view(res: Result<Vec<ReadingCsvRow>, ImportError>) -> Result<Seq<ReadingRowView>, ImportFault> {
    match res {
        Ok(v) => Ok(v@.map_values(|r: ReadingCsvRow| r@)),
        Err(e) => Err(e.fault()),
    }
}

fn find_reading_columns(table: &CsvTable) -> (res: Result<ReadingColumns, ImportError>)
    ensures
        match res {
            Ok(c) => reading_columns(table.header_texts()) == Ok::<ReadingColumns, ImportFault>(c),
            Err(e) => reading_columns(table.header_texts()) == Err::<ReadingColumns, ImportFault>(
                e.fault(),
            ),
        },
{
    match &table.headers {
        None => Ok(ReadingColumns { meter_number: 0, reading_date: 1, value: 2 }),
        Some(headers) => {
            let meter_number = require_column(headers, "meter_number")?;
            let reading_date = require_column(headers, "reading_date")?;
            let value = require_column(headers, "value")?;
            Ok(ReadingColumns { meter_number, reading_date, value })
        },
    }
}

fn parse_reading_row(r: &Vec<String>, c: ReadingColumns, row: usize) -> (res: Result<ReadingCsvRow, ImportError>)
    ensures
        match res {
            Ok(v) => reading_row(texts(r@), c, row as int) == Ok::<ReadingRowView, ImportFault>(v@),
            Err(e) => reading_row(texts(r@), c, row as int) == Err::<ReadingRowView, ImportFault>(
                e.fault(),
            ),
        },
{
    let ghost t = texts(r@);
    if !(c.meter_number < r.len() && c.reading_date < r.len() && c.value < r.len()) {
        return Err(ImportError::ShortRow { row });
    }
    let reading_date = read_date_field(&r[c.reading_date], row, "reading_date")?;
    let value = match parse_decimal(r[c.value].as_str()) {
        Some(d) => d,
        None => {
            return Err(ImportError::InvalidNumber { row, column: String::from_str("value") });
        },
    };
    let v = ReadingCsvRow { meter_number: r[c.meter_number].clone(), reading_date, value };
    assert(t[c.meter_number as int] == r@[c.meter_number as int]@);
    Ok(v)
}

/// The reading rows of a table that csv's reader produced.
pub fn parse_reading_rows(table: &CsvTable) -> (res: Result<Vec<ReadingCsvRow>, ImportError>)
    ensures
        reading_rows_view(res) == reading_table_rows(table.header_texts(), table.row_texts()),
{
    let mut out: Vec<ReadingCsvRow> = Vec::new();
    if table.rows.len() == 0 {
        assert(out@.map_values(|r: ReadingCsvRow| r@) =~= Seq::<ReadingRowView>::empty());
        return Ok(out);
    }
    let c = match find_reading_columns(table) {
        Ok(c) => c,
        Err(e) => return Err(e),
    };
    let ghost all = table.row_texts();
    proof {
        assert(all.skip(0) =~= all);
        if let Ok(vs) = reading_rows(all, c, 0) {
            assert(out@.map_values(|r: ReadingCsvRow| r@) + vs =~= vs);
        }
    }
    let mut i: usize = 0;
    while i < table.rows.len()
        invariant
            i <= table.rows@.len(),
            all == table.row_texts(),
            reading_columns(table.header_texts()) == Ok::<ReadingColumns, ImportFault>(c),
            reading_rows(all, c, 0) == match reading_rows(all.skip(i as int), c, i as int) {
                Ok(vs) => Ok(out@.map_values(|r: ReadingCsvRow| r@) + vs),
                Err(e) => Err::<Seq<ReadingRowView>, ImportFault>(e),
            },
        decreases table.rows.len() - i,
    {
        let row = &table.rows[i];
        let ghost rest = all.skip(i as int);
        assert(rest.len() > 0);
        assert(rest[0] == texts(row@));
        assert(rest.drop_first() =~= all.skip(i + 1));
        match parse_reading_row(row, c, i) {
            Ok(v) => {
                let ghost before = out@;
                out.push(v);
                proof {
                    assert(out@.map_values(|r: ReadingCsvRow| r@) =~= before.map_values(
                        |r: ReadingCsvRow| r@,
                    ).push(v@));
                    match reading_rows(all.skip(i + 1), c, i + 1) {
                        Ok(vs) => {
                            assert(before.map_values(|r: ReadingCsvRow| r@) + (seq![v@] + vs)
                                =~= out@.map_values(|r: ReadingCsvRow| r@) + vs);
                        },
                        Err(_) => {},
                    }
                }
            },
            Err(e) => {
                assert(reading_rows(rest, c, i as int) == Err::<Seq<ReadingRowView>, ImportFault>(
                    e.fault(),
                ));
                return Err(e);
            },
        }
        i = i + 1;
    }
    assert(all.skip(table.rows@.len() as int) =~= Seq::<Seq<Seq<char>>>::empty());
    assert(out@.map_values(|r: ReadingCsvRow| r@) + Seq::<ReadingRowView>::empty()
        =~= out@.map_values(|r: ReadingCsvRow| r@));
    Ok(out)
}

/// Reads a reading import file.
pub fn read_reading_rows(data: &[u8]) -> (res: Result<Vec<ReadingCsvRow>, ImportError>)
    ensures
        reading_rows_view(res) == reading_import(data@),
{
    match read_table(data) {
        Ok(table) => parse_reading_rows(&table),
        Err(e) => Err(ImportError::Csv(e)),
    }
}

// ---------------------------------------------------------------------------
// Starting an import
// ---------------------------------------------------------------------------

pub open spec fn meter_import_rows(rows: Seq<MeterRowView>) -> Seq<ImportRowView> {
    rows.map_values(|m: MeterRowView| ImportRowView::Meter(m))
}

pub open spec fn reading_import_rows(rows: Seq<ReadingRowView>) -> Seq<ImportRowView> {
    rows.map_values(|r: ReadingRowView| ImportRowView::Reading(r))
}

pub open spec fn instance_import_rows(rows: Seq<MeterInstanceRowView>) -> Seq<ImportRowView> {
    rows.map_values(|r: MeterInstanceRowView| ImportRowView::Instance(r))
}

/// How an import of a CSV document starts: where the document denotes rows
/// (`spec_rows`), a run that is to store exactly those rows, in order, and
/// whose first action opens the transaction; else the error, before any
/// database work.
pub open spec fn import_started(
    res: Result<(ImportRun, ImportAction), ImportError>,
    spec_rows: Result<Seq<ImportRowView>, ImportFault>,
) -> bool {
    match res {
        Ok((run, action)) => {
            &&& spec_rows is Ok
            &&& run@ == ImportRunView::start(spec_rows->Ok_0)
            &&& run@.wf()
            &&& action is Begin
        },
        Err(e) => spec_rows == Err::<Seq<ImportRowView>, ImportFault>(e.fault()),
    }
}

pub open spec fn meter_import_plan(data: Seq<u8>) -> Result<Seq<ImportRowView>, ImportFault> {
    match meter_import(data) {
        Ok(rows) => Ok(meter_import_rows(rows)),
        Err(e) => Err(e),
    }
}

pub open spec fn meter_instance_import_plan(data: Seq<u8>) -> Result<Seq<ImportRowView>, ImportFault> {
    match meter_instance_import(data) {
        Ok(rows) => Ok(instance_import_rows(rows)),
        Err(e) => Err(e),
    }
}

fn copy_meter_row(r: &MeterCsvRow) -> (res: MeterCsvRow)
    ensures
        res@ == r@,
{
    MeterCsvRow { name: r.name.clone(), unit: r.unit.clone() }
}

fn copy_instance_row(r: &MeterInstanceCsvRow) -> (res: MeterInstanceCsvRow)
    ensures
        res@ == r@,
{
    MeterInstanceCsvRow {
        meter_name: r.meter_name.clone(),
        meter_number: r.meter_number.clone(),
        initial_reading: r.initial_reading,
        initial_reading_date: r.initial_reading_date,
        installed_at: r.installed_at,
        removed_at: r.removed_at,
    }
}

pub open spec fn reading_import_plan(data: Seq<u8>) -> Result<Seq<ImportRowView>, ImportFault> {
    match reading_import(data) {
        Ok(rows) => Ok(reading_import_rows(rows)),
        Err(e) => Err(e),
    }
}

/// Starts the import of a meter file (`name,unit`): every row becomes a
/// meter, all of them in one transaction.
pub fn import_meters(csv_data: &[u8]) -> (res: Result<(ImportRun, ImportAction), ImportError>)
    ensures
        import_started(res, meter_import_plan(csv_data@)),
{
    let rows = read_meter_rows(csv_data)?;
    let ghost want = meter_import_rows(rows@.map_values(|r: MeterCsvRow| r@));
    let mut plan: Vec<ImportRow> = Vec::new();
    let mut i: usize = 0;
    while i < rows.len()
        invariant
            i <= rows@.len(),
            want == meter_import_rows(rows@.map_values(|r: MeterCsvRow| r@)),
            plan@.map_values(|r: ImportRow| r@) =~= want.take(i as int),
        decreases rows.len() - i,
    {
        let ghost before = plan@;
        plan.push(ImportRow::Meter(copy_meter_row(&rows[i])));
        proof {
            assert(plan@.map_values(|r: ImportRow| r@) =~= before.map_values(|r: ImportRow| r@).push(
                want[i as int],
            ));
            assert(want.take(i + 1) =~= want.take(i as int).push(want[i as int]));
        }
        i = i + 1;
    }
    assert(want.take(rows@.len() as int) =~= want);
    Ok(ImportRun::new(plan))
}

/// Starts the import of a meter-instance file: every row becomes a
/// physical meter of the logical meter that its `meter_name` names, all of
/// them in one transaction.
pub fn import_meter_instances(csv_data: &[u8]) -> (res: Result<(ImportRun, ImportAction), ImportError>)
    ensures
        import_started(res, meter_instance_import_plan(csv_data@)),
{
    let rows = read_meter_instance_rows(csv_data)?;
    let ghost want = instance_import_rows(rows@.map_values(|r: MeterInstanceCsvRow| r@));
    let mut plan: Vec<ImportRow> = Vec::new();
    let mut i: usize = 0;
    while i < rows.len()
        invariant
            i <= rows@.len(),
            want == instance_import_rows(rows@.map_values(|r: MeterInstanceCsvRow| r@)),
            plan@.map_values(|r: ImportRow| r@) =~= want.take(i as int),
        decreases rows.len() - i,
    {
        let ghost before = plan@;
        plan.push(ImportRow::Instance(copy_instance_row(&rows[i])));
        proof {
            assert(plan@.map_values(|r: ImportRow| r@) =~= before.map_values(|r: ImportRow| r@).push(
                want[i as int],
            ));
            assert(want.take(i + 1) =~= want.take(i as int).push(want[i as int]));
        }
        i = i + 1;
    }
    assert(want.take(rows@.len() as int) =~= want);
    Ok(ImportRun::new(plan))
}

/// Starts the import of a reading file: every row becomes a reading of the
/// physical meter that its `meter_number` names, all of them in one
/// transaction.
pub fn import_readings(csv_data: &[u8]) -> (res: Result<(ImportRun, ImportAction), ImportError>)
    ensures
        import_started(res, reading_import_plan(csv_data@)),
{
    let rows = read_reading_rows(csv_data)?;
    let ghost want = reading_import_rows(rows@.map_values(|r: ReadingCsvRow| r@));
    let mut plan: Vec<ImportRow> = Vec::new();
    let mut i: usize = 0;
    while i < rows.len()
        invariant
            i <= rows@.len(),
            want == reading_import_rows(rows@.map_values(|r: ReadingCsvRow| r@)),
            plan@.map_values(|r: ImportRow| r@) =~= want.take(i as int),
        decreases rows.len() - i,
    {
        let ghost before = plan@;
        let r = &rows[i];
        let copy = ReadingCsvRow {
            meter_number: r.meter_number.clone(),
            reading_date: r.reading_date,
            value: r.value,
        };
        plan.push(ImportRow::Reading(copy));
        proof {
            assert(plan@.map_values(|r: ImportRow| r@) =~= before.map_values(|r: ImportRow| r@).push(
                want[i as int],
            ));
            assert(want.take(i + 1) =~= want.take(i as int).push(want[i as int]));
        }
        i = i + 1;
    }
    assert(want.take(rows@.len() as int) =~= want);
    Ok(ImportRun::new(plan))
}

/// Each row of a reading import is read from the data row at its place.
pub proof fn lemma_reading_rows_one_per_row(rows: Seq<Seq<Seq<char>>>, c: ReadingColumns, first: int)
    requires
        reading_rows(rows, c, first) is Ok,
    ensures
        reading_rows(rows, c, first)->Ok_0.len() == rows.len(),
        forall|i: int| 0 <= i < rows.len() ==> reading_row(rows[i], c, first + i)
            == Ok::<ReadingRowView, ImportFault>(#[trigger] reading_rows(rows, c, first)->Ok_0[i]),
    decreases rows.len(),
{
    if rows.len() > 0 {
        let rest = rows.drop_first();
        lemma_reading_rows_one_per_row(rest, c, first + 1);
        let vs = reading_rows(rows, c, first)->Ok_0;
        assert forall|i: int| 0 <= i < rows.len() implies reading_row(rows[i], c, first + i)
            == Ok::<ReadingRowView, ImportFault>(#[trigger] vs[i]) by {
            if i > 0 {
                assert(rows[i] == rest[i - 1]);
                assert(vs[i] == reading_rows(rest, c, first + 1)->Ok_0[i - 1]);
            }
        }
    }
}

/// In a meter import whose header row names the columns, the meter of
/// data row `i` has the name and unit written in that row under the
/// headers `name` and `unit`.
pub proof fn lemma_meter_file_reads_named_columns(h: Seq<Seq<char>>, rows: Seq<Seq<Seq<char>>>, i: int)
    requires
        meter_rows(Some(h), rows) is Ok,
        0 <= i < rows.len(),
    ensures
        meter_rows(Some(h), rows)->Ok_0.len() == rows.len(),
        column_of(h, "name"@) matches Column::At(j)
            && meter_rows(Some(h), rows)->Ok_0[i].name == rows[i][j as int],
        column_of(h, "unit"@) matches Column::At(j)
            && meter_rows(Some(h), rows)->Ok_0[i].unit == rows[i][j as int],
{
    let c = meter_columns(Some(h))->Ok_0;
    lemma_meter_rows_one_per_row(rows, c, 0);
    assert(meter_row(rows[i], c, 0 + i) == Ok::<MeterRowView, ImportFault>(
        meter_rows_from(rows, c, 0)->Ok_0[i],
    ));
}

/// In a meter-instance import whose header row names the columns, the
/// instance of data row `i` is what that row holds under each header: the
/// meter name and number as written, the initial reading as the number
/// under `initial_reading`, the initial reading date and the installation
/// date as the dates under `initial_reading_date` and `installed_at`, and
/// the removal date under `removed_at`, none where that column or field is
/// empty or absent.
pub proof fn lemma_instance_file_reads_named_columns(h: Seq<Seq<char>>, rows: Seq<Seq<Seq<char>>>, i: int)
    requires
        meter_instance_rows(Some(h), rows) is Ok,
        0 <= i < rows.len(),
    ensures
        meter_instance_rows(Some(h), rows)->Ok_0.len() == rows.len(),
        column_of(h, "meter_name"@) matches Column::At(j)
            && meter_instance_rows(Some(h), rows)->Ok_0[i].meter_name == rows[i][j as int],
        column_of(h, "meter_number"@) matches Column::At(j)
            && meter_instance_rows(Some(h), rows)->Ok_0[i].meter_number == rows[i][j as int],
        column_of(h, "initial_reading"@) matches Column::At(j)
            && spec_parse_decimal(rows[i][j as int]) == Some(meter_instance_rows(Some(h), rows)->Ok_0[i].initial_reading),
        column_of(h, "initial_reading_date"@) matches Column::At(j)
            && spec_parse_date(rows[i][j as int]) == Some(meter_instance_rows(Some(h), rows)->Ok_0[i].initial_reading_date),
        column_of(h, "installed_at"@) matches Column::At(j)
            && spec_parse_date(rows[i][j as int]) == Some(meter_instance_rows(Some(h), rows)->Ok_0[i].installed_at),
        column_of(h, "removed_at"@) is Missing ==> meter_instance_rows(Some(h), rows)->Ok_0[i].removed_at is None,
        column_of(h, "removed_at"@) matches Column::At(j) ==> (if rows[i][j as int].len() == 0 {
            meter_instance_rows(Some(h), rows)->Ok_0[i].removed_at is None
        } else {
            spec_parse_date(rows[i][j as int]) == meter_instance_rows(Some(h), rows)->Ok_0[i].removed_at
        }),
{
    let c = instance_columns(Some(h))->Ok_0;
    lemma_instance_rows_one_per_row(rows, c, 0);
    assert(instance_row(rows[i], c, 0 + i) == Ok::<MeterInstanceRowView, ImportFault>(
        instance_rows(rows, c, 0)->Ok_0[i],
    ));
}

/// In a reading import whose header row names the columns, the reading of
/// data row `i` is what that row holds under each header: the meter number
/// as written, the date under `reading_date` and the number under `value`.
pub proof fn lemma_reading_file_reads_named_columns(h: Seq<Seq<char>>, rows: Seq<Seq<Seq<char>>>, i: int)
    requires
        reading_table_rows(Some(h), rows) is Ok,
        0 <= i < rows.len(),
    ensures
        reading_table_rows(Some(h), rows)->Ok_0.len() == rows.len(),
        column_of(h, "meter_number"@) matches Column::At(j)
            && reading_table_rows(Some(h), rows)->Ok_0[i].meter_number == rows[i][j as int],
        column_of(h, "reading_date"@) matches Column::At(j)
            && spec_parse_date(rows[i][j as int]) == Some(reading_table_rows(Some(h), rows)->Ok_0[i].reading_date),
        column_of(h, "value"@) matches Column::At(j)
            && spec_parse_decimal(rows[i][j as int]) == Some(reading_table_rows(Some(h), rows)->Ok_0[i].value),
{
    let c = reading_columns(Some(h))->Ok_0;
    lemma_reading_rows_one_per_row(rows, c, 0);
    assert(reading_row(rows[i], c, 0 + i) == Ok::<ReadingRowView, ImportFault>(
        reading_rows(rows, c, 0)->Ok_0[i],
    ));
}

} // verus!
