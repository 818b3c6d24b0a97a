//! CSV documents as tables of text, and the lookup of a column by its
//! header name.

use vstd::prelude::*;

verus! {

#[verifier::external_type_specification]
#[verifier::external_body]
pub struct ExCsvError(csv::Error);

/// A CSV document read with a header row: the header names (`None` where
/// the header row is not valid UTF-8, so that rows are read by position),
/// and the data rows in document order, each a sequence of fields.
#[derive(Debug)]
pub struct CsvTable {
    pub headers: Option<Vec<String>>,
    pub rows: Vec<Vec<String>>,
}

pub open spec fn texts(v: Seq<String>) -> Seq<Seq<char>> {
    v.map_values(|s: String| s@)
}

impl CsvTable {
    pub open spec fn header_texts(&self) -> Option<Seq<Seq<char>>> {
        match self.headers {
            Some(h) => Some(texts(h@)),
            None => None,
        }
    }

    pub open spec fn row_texts(&self) -> Seq<Seq<Seq<char>>> {
        self.rows@.map_values(|r: Vec<String>| texts(r@))
    }

    /// Every data row has one field per header, as csv's reader ensures.
    pub open spec fn wf(&self) -> bool {
        self.headers matches Some(h) ==> forall|i: int|
            0 <= i < self.rows@.len() ==> #[trigger] self.rows@[i]@.len() == h@.len()
    }
}

/// What the csv crate's default reader makes of a document: the header
/// record as text (`None` where `Reader::headers` fails, as for a header
/// that is not valid UTF-8) and the data records as text, or `None` where
/// reading the data records fails (a record whose field count differs from
/// the header's, a record that is not valid UTF-8).
pub uninterp spec fn csv_read(data: Seq<u8>) -> Option<(Option<Seq<Seq<char>>>, Seq<Seq<Seq<char>>>)>;

/// Reads `data` with `csv::Reader::from_reader` (comma-separated, the first
/// record is the header, records must agree in length) through
/// `Reader::headers`, whose failure only drops the header names as csv's
/// row deserializer does, and `Reader::records`, and copies the fields out.
/// The contract names the result and states that every data record has the
/// header's length (csv's reader is not `flexible` by default, and its
/// first record is the header). Which documents csv accepts is not stated.
#[verifier::external_body]
fn read_csv(data: &[u8]) -> (res: Result<CsvTable, csv::Error>)
    ensures
        res is Ok <==> csv_read(data@) is Some,
        res matches Ok(t) ==> csv_read(data@) == Some((t.header_texts(), t.row_texts())),
        res matches Ok(t) ==> t.wf(),
{
    let mut reader = csv::Reader::from_reader(data);
    let headers: Option<Vec<String>> = reader.headers().ok().map(
        |h| h.iter().map(String::from).collect(),
    );
    let rows = reader
        .records()
        .map(|r| r.map(|record| record.iter().map(String::from).collect()))
        .collect::<Result<Vec<Vec<String>>, csv::Error>>()?;
    Ok(CsvTable { headers, rows })
}

/// Reads a CSV document with a header row.
pub fn read_table(data: &[u8]) -> (res: Result<CsvTable, csv::Error>)
    ensures
        res is Ok <==> csv_read(data@) is Some,
        res matches Ok(t) ==> csv_read(data@) == Some((t.header_texts(), t.row_texts()))
            && t.wf(),
{
    read_csv(data)
}

/// Where a header name stands among the headers.
#[derive(Clone, Copy, Debug, PartialEq, Eq, Structural)]
pub enum Column {
    Missing,
    At(usize),
    Repeated,
}

/// The position of `name` among `headers`: `Missing` where no header is
/// `name`, `At(i)` where exactly header `i` is, `Repeated` where several are.
pub open spec fn column_of(headers: Seq<Seq<char>>, name: Seq<char>) -> Column
    decreases headers.len(),
{
    if headers.len() == 0 {
        Column::Missing
    } else {
        let before = column_of(headers.drop_last(), name);
        if headers.last() == name {
            match before {
                Column::Missing => Column::At((headers.len() - 1) as usize),
                _ => Column::Repeated,
            }
        } else {
            before
        }
    }
}

/// `column_of` means what it says: `At(i)` names the one header equal to
/// `name`, `Missing` says that none is, `Repeated` that two are.
pub proof fn lemma_column_of(headers: Seq<Seq<char>>, name: Seq<char>)
    requires
        headers.len() <= usize::MAX,
    ensures
        column_of(headers, name) matches Column::At(i) ==> {
            &&& i < headers.len()
            &&& headers[i as int] == name
            &&& forall|j: int| 0 <= j < headers.len() && j != i ==> headers[j] != name
        },
        column_of(headers, name) is Missing ==> forall|j: int|
            0 <= j < headers.len() ==> headers[j] != name,
        column_of(headers, name) is Repeated ==> exists|j: int, k: int|
            0 <= j < k < headers.len() && headers[j] == name && headers[k] == name,
    decreases headers.len(),
{
    if headers.len() > 0 {
        let prefix = headers.drop_last();
        lemma_column_of(prefix, name);
        let last = headers.len() - 1;
        assert forall|j: int| 0 <= j < last implies headers[j] == prefix[j] by {}
        if let Column::At(i) = column_of(headers, name) {
            assert forall|j: int| 0 <= j < headers.len() && j != i implies headers[j] != name by {
                if j < last {
                    assert(headers[j] == prefix[j]);
                    match column_of(prefix, name) {
                        Column::At(i2) => {
                            assert(i2 == i);
                        },
                        _ => {},
                    }
                } else {
                    assert(headers.last() == headers[j]);
                }
            }
        }
        if column_of(headers, name) is Repeated {
            if headers.last() == name {
                match column_of(prefix, name) {
                    Column::At(i) => {
                        assert(headers[i as int] == name && headers[last] == name);
                    },
                    Column::Repeated => {
                        let (j, k) = choose|j: int, k: int|
                            0 <= j < k < prefix.len() && prefix[j] == name && prefix[k] == name;
                        assert(headers[j] == name && headers[k] == name);
                    },
                    Column::Missing => {},
                }
            } else {
                let (j, k) = choose|j: int, k: int|
                    0 <= j < k < prefix.len() && prefix[j] == name && prefix[k] == name;
                assert(headers[j] == name && headers[k] == name);
            }
        }
    }
}

/// Finds the column headed `name`.
pub fn find_column(headers: &Vec<String>, name: &str) -> (res: Column)
    ensures
        res == column_of(texts(headers@), name@),
{
    let target = String::from_str(name);
    let mut res = Column::Missing;
    let mut i: usize = 0;
    while i < headers.len()
        invariant
            i <= headers.len(),
            target@ == name@,
            res == column_of(texts(headers@).take(i as int), name@),
        decreases headers.len() - i,
    {
        let ghost all = texts(headers@);
        assert(all.take(i + 1).drop_last() == all.take(i as int));
        assert(all.take(i + 1).last() == headers@[i as int]@);
        if headers[i] == target {
            res = match res {
                Column::Missing => Column::At(i),
                _ => Column::Repeated,
            };
        }
        i = i + 1;
    }
    assert(texts(headers@).take(headers@.len() as int) == texts(headers@));
    res
}

} // verus!
