//! The two tables of administrative regions and how they are loaded.
//!
//! Both tables have four columns: the region's composite code, its name, the
//! name in ASCII and the region's numeric id. A table is loaded whole or not
//! at all: the first row that does not follow the schema fails it.

use crate::lookup::AdminLookup;
use crate::schema::{
    first_fault, lemma_column_at_fault, lemma_column_sound, lemma_columns_done, read_integer,
    read_text, ColumnKind, Row, SchemaError,
};
use crate::table::{tsv_records, Record, Table, TableError};
use crate::text::parsed_i64;
use vstd::prelude::*;

verus! {

/// What a row of a table of regions says.
pub struct AdminEntry {
    pub code: Seq<char>,
    pub name: Seq<char>,
    pub ascii_name: Seq<char>,
    pub geonameid: i64,
}

/// A first-level subdivision: a state or a province.
#[derive(Debug, PartialEq, Eq)]
pub struct Admin1Data {
    /// Country code and region code, joined by a point.
    pub code: String,
    pub name: String,
    pub ascii_name: String,
    pub geonameid: i64,
}

/// A second-level subdivision: a county or a district.
#[derive(Debug, PartialEq, Eq)]
pub struct Admin2Data {
    /// Country code and the codes of both levels, joined by points.
    pub code: String,
    pub name: String,
    pub ascii_name: String,
    pub geonameid: i64,
}

impl View for Admin1Data {
    type V = AdminEntry;

    open spec fn view(&self) -> AdminEntry {
        AdminEntry {
            code: self.code@,
            name: self.name@,
            ascii_name: self.ascii_name@,
            geonameid: self.geonameid,
        }
    }
}

impl View for Admin2Data {
    type V = AdminEntry;

    open spec fn view(&self) -> AdminEntry {
        AdminEntry {
            code: self.code@,
            name: self.name@,
            ascii_name: self.ascii_name@,
            geonameid: self.geonameid,
        }
    }
}

impl Clone for Admin1Data {
    fn clone(&self) -> (copy: Admin1Data)
        ensures
            copy == *self,
    {
        Admin1Data {
            code: self.code.clone(),
            name: self.name.clone(),
            ascii_name: self.ascii_name.clone(),
            geonameid: self.geonameid,
        }
    }
}

impl Clone for Admin2Data {
    fn clone(&self) -> (copy: Admin2Data)
        ensures
            copy == *self,
    {
        Admin2Data {
            code: self.code.clone(),
            name: self.name.clone(),
            ascii_name: self.ascii_name.clone(),
            geonameid: self.geonameid,
        }
    }
}

/// A record of a table of regions: it is made from the four cells of a row
/// and gives the key and the value under which the row is looked up.
pub trait AdminData: Sized {
    /// What the record says.
    spec fn entry(&self) -> AdminEntry;

    /// The key of a row that says `entry`.
    spec fn key_spec(entry: AdminEntry) -> Seq<char>;

    /// The value of a row that says `entry`.
    spec fn value_spec(entry: AdminEntry) -> Seq<char>;

    /// The record of a row with these four cells.
    fn from_cells(code: String, name: String, ascii_name: String, geonameid: i64) -> (record: Self)
        ensures
            record.entry() == (AdminEntry {
                code: code@,
                name: name@,
                ascii_name: ascii_name@,
                geonameid,
            }),
    ;

    /// The key under which the record is looked up.
    fn key(&self) -> (key: String)
        ensures
            key@ == Self::key_spec(self.entry()),
    ;

    /// What looking the record up gives.
    fn value(&self) -> (value: String)
        ensures
            value@ == Self::value_spec(self.entry()),
    ;
}

impl AdminData for Admin1Data {
    open spec fn entry(&self) -> AdminEntry {
        self@
    }

    open spec fn key_spec(entry: AdminEntry) -> Seq<char> {
        entry.code
    }

    open spec fn value_spec(entry: AdminEntry) -> Seq<char> {
        entry.name
    }

    fn from_cells(code: String, name: String, ascii_name: String, geonameid: i64) -> Admin1Data {
        Admin1Data { code, name, ascii_name, geonameid }
    }

    fn key(&self) -> String {
        self.code.clone()
    }

    fn value(&self) -> String {
        self.name.clone()
    }
}

impl AdminData for Admin2Data {
    open spec fn entry(&self) -> AdminEntry {
        self@
    }

    open spec fn key_spec(entry: AdminEntry) -> Seq<char> {
        entry.code
    }

    open spec fn value_spec(entry: AdminEntry) -> Seq<char> {
        entry.name
    }

    fn from_cells(code: String, name: String, ascii_name: String, geonameid: i64) -> Admin2Data {
        Admin2Data { code, name, ascii_name, geonameid }
    }

    fn key(&self) -> String {
        self.code.clone()
    }

    fn value(&self) -> String {
        self.name.clone()
    }
}

/// The columns of a table of regions.
pub open spec fn admin_schema() -> Seq<ColumnKind> {
    seq![ColumnKind::Text, ColumnKind::Text, ColumnKind::Text, ColumnKind::Integer]
}

/// What a row that follows [`admin_schema`] says.
pub open spec fn entry_of(row: Row) -> AdminEntry {
    AdminEntry {
        code: row[0],
        name: row[1],
        ascii_name: row[2],
        geonameid: parsed_i64(row[3]).unwrap(),
    }
}

/// The fault of a row of a table of regions, if it has one.
pub open spec fn admin_fault(row: Row) -> Option<SchemaError> {
    first_fault(admin_schema(), row, None)
}

/// Reads one row of a table of regions.
pub fn read_entry<T: AdminData>(row: &Vec<String>) -> (r: Result<T, SchemaError>)
    ensures
        match r {
            Ok(record) => admin_fault(row.deep_view()) is None && record.entry() == entry_of(
                row.deep_view(),
            ),
            Err(e) => admin_fault(row.deep_view()) == Some(e),
        },
{
    let ghost schema = admin_schema();
    let ghost cells = row.deep_view();
    let code = match read_text(row, 0) {
        Ok(v) => v,
        Err(e) => {
            proof {
                lemma_column_at_fault(schema, cells, None, 0, e.fault);
            }
            return Err(e);
        },
    };
    proof {
        lemma_column_sound(schema, cells, None, 0);
    }
    let name = match read_text(row, 1) {
        Ok(v) => v,
        Err(e) => {
            proof {
                lemma_column_at_fault(schema, cells, None, 1, e.fault);
            }
            return Err(e);
        },
    };
    proof {
        lemma_column_sound(schema, cells, None, 1);
    }
    let ascii_name = match read_text(row, 2) {
        Ok(v) => v,
        Err(e) => {
            proof {
                lemma_column_at_fault(schema, cells, None, 2, e.fault);
            }
            return Err(e);
        },
    };
    proof {
        lemma_column_sound(schema, cells, None, 2);
    }
    let geonameid = match read_integer(row, 3) {
        Ok(v) => v,
        Err(e) => {
            proof {
                lemma_column_at_fault(schema, cells, None, 3, e.fault);
            }
            return Err(e);
        },
    };
    proof {
        lemma_column_sound(schema, cells, None, 3);
    }
    proof {
        lemma_columns_done(schema, cells, None);
    }
    Ok(T::from_cells(code, name, ascii_name, geonameid))
}

/// Why loading a table fails; what a [`TableError`] holds.
#[derive(Clone, Copy, Debug, PartialEq, Eq, Structural)]
pub enum LoadFailure {
    /// The reader reported an error in place of this record.
    Unreadable { record: usize },
    /// This row does not follow the schema.
    Row { row: usize, error: SchemaError },
}

impl View for TableError {
    type V = LoadFailure;

    open spec fn view(&self) -> LoadFailure {
        match self {
            TableError::Unreadable { record, .. } => LoadFailure::Unreadable { record: *record },
            TableError::Row { row, error } => LoadFailure::Row { row: *row, error: *error },
        }
    }
}

/// The place of a record as an error names it: its number, counted from 0;
/// a number too large for the machine is given as the largest.
pub open spec fn place(record: int) -> usize {
    if record > usize::MAX {
        usize::MAX
    } else {
        record as usize
    }
}

/// What loading the records from `from` on gives, where the records before
/// made the table `names`.
///
/// The records are taken in their order. A record that could not be read,
/// or whose row does not follow the schema, fails the load then and there.
/// Any other sets the name of its key, so of two rows with one key the
/// later one stays.
pub open spec fn load_from<T: AdminData>(
    records: Seq<Record>,
    from: int,
    names: Map<Seq<char>, Seq<char>>,
) -> Result<Map<Seq<char>, Seq<char>>, LoadFailure>
    decreases records.len() - from,
{
    if from < 0 || from >= records.len() {
        Ok(names)
    } else if records[from] is None {
        Err(LoadFailure::Unreadable { record: place(from) })
    } else if admin_fault(records[from].unwrap()) is Some {
        Err(
            LoadFailure::Row {
                row: place(from),
                error: admin_fault(records[from].unwrap()).unwrap(),
            },
        )
    } else {
        let entry = entry_of(records[from].unwrap());
        load_from::<T>(records, from + 1, names.insert(T::key_spec(entry), T::value_spec(entry)))
    }
}

/// What loading a table of these records gives: the table, or why there is
/// none.
pub open spec fn load<T: AdminData>(records: Seq<Record>) -> Result<
    Map<Seq<char>, Seq<char>>,
    LoadFailure,
> {
    load_from::<T>(records, 0, Map::empty())
}

/// `r` is the outcome `expected`, table and error each taken by its view.
pub open spec fn loads_to(
    r: Result<AdminLookup, TableError>,
    expected: Result<Map<Seq<char>, Seq<char>>, LoadFailure>,
) -> bool {
    match r {
        Ok(lookup) => expected == Ok::<_, LoadFailure>(lookup@),
        Err(e) => expected == Err::<Map<Seq<char>, Seq<char>>, _>(e@),
    }
}

/// Rows that were all read.
pub open spec fn as_records(rows: Seq<Row>) -> Seq<Record> {
    Seq::new(rows.len(), |i: int| Some(rows[i]))
}

/// Makes the table of `rows`.
pub fn build_lookup<T: AdminData>(rows: &Vec<Vec<String>>) -> (r: Result<AdminLookup, TableError>)
    ensures
        loads_to(r, load::<T>(as_records(rows.deep_view()))),
{
    let ghost records = as_records(rows.deep_view());
    let mut lookup = AdminLookup::new();
    let mut i: usize = 0;
    while i < rows.len()
        invariant
            records == as_records(rows.deep_view()),
            0 <= i <= rows.len(),
            load::<T>(records) == load_from::<T>(records, i as int, lookup@),
        decreases rows.len() - i,
    {
        assert(records[i as int] == Some(rows[i as int].deep_view()));
        match read_entry::<T>(&rows[i]) {
            Err(error) => {
                return Err(TableError::Row { row: i, error });
            },
            Ok(record) => {
                lookup.insert(record.key(), record.value());
            },
        }
        i = i + 1;
    }
    Ok(lookup)
}

/// Loads one table of regions from the bytes of its file.
pub fn load_admin_file<T: AdminData>(data: &[u8]) -> (r: Result<AdminLookup, TableError>)
    ensures
        loads_to(r, load::<T>(tsv_records(data@))),
{
    let ghost records = tsv_records(data@);
    let mut table = Table::open(data);
    let mut lookup = AdminLookup::new();
    let mut i: usize = 0;
    let ghost mut n: int = 0;
    loop
        invariant
            records == tsv_records(data@),
            0 <= n <= records.len(),
            i == place(n),
            table.ahead() == records.skip(n),
            load::<T>(records) == load_from::<T>(records, n, lookup@),
        decreases records.len() - n,
    {
        match table.next_row() {
            None => {
                return Ok(lookup);
            },
            Some(Err(error)) => {
                assert(records[n] == records.skip(n)[0]);
                return Err(TableError::Unreadable { record: i, report: error });
            },
            Some(Ok(row)) => {
                assert(records[n] == records.skip(n)[0]);
                assert(records.skip(n).skip(1) =~= records.skip(n + 1));
                match read_entry::<T>(&row) {
                    Err(error) => {
                        return Err(TableError::Row { row: i, error });
                    },
                    Ok(record) => {
                        lookup.insert(record.key(), record.value());
                    },
                }
            },
        }
        if i < usize::MAX {
            i = i + 1;
        }
        proof {
            n = n + 1;
        }
    }
}

/// Which of the two tables.
#[derive(Clone, Copy, Debug, PartialEq, Eq, Structural)]
pub enum AdminLevel {
    First,
    Second,
}

/// A table of regions that could not be loaded; nothing is ingested then.
#[derive(Debug)]
pub struct StartupConfigError {
    pub level: AdminLevel,
    pub cause: TableError,
}

/// What loading both tables gives: both, or the first that fails and why.
pub open spec fn load_both(first: Seq<Record>, second: Seq<Record>) -> Result<
    (Map<Seq<char>, Seq<char>>, Map<Seq<char>, Seq<char>>),
    (AdminLevel, LoadFailure),
> {
    match load::<Admin1Data>(first) {
        Err(cause) => Err((AdminLevel::First, cause)),
        Ok(admin1) => match load::<Admin2Data>(second) {
            Err(cause) => Err((AdminLevel::Second, cause)),
            Ok(admin2) => Ok((admin1, admin2)),
        },
    }
}

/// `r` is the outcome `expected`, tables and error each taken by its view.
pub open spec fn both_load_to(
    r: Result<(AdminLookup, AdminLookup), StartupConfigError>,
    expected: Result<
        (Map<Seq<char>, Seq<char>>, Map<Seq<char>, Seq<char>>),
        (AdminLevel, LoadFailure),
    >,
) -> bool {
    match r {
        Ok((first, second)) => expected == Ok::<_, (AdminLevel, LoadFailure)>((first@, second@)),
        Err(e) => expected == Err::<
            (Map<Seq<char>, Seq<char>>, Map<Seq<char>, Seq<char>>),
            _,
        >((e.level, e.cause@)),
    }
}

/// Loads both tables of regions, the first level from `admin_1` and the
/// second from `admin_2`, each given as the bytes of its file. The first
/// table that fails is the error.
pub fn load_admin_files(admin_1: &[u8], admin_2: &[u8]) -> (r: Result<
    (AdminLookup, AdminLookup),
    StartupConfigError,
>)
    ensures
        both_load_to(r, load_both(tsv_records(admin_1@), tsv_records(admin_2@))),
{
    let first = match load_admin_file::<Admin1Data>(admin_1) {
        Ok(lookup) => lookup,
        Err(cause) => {
            return Err(StartupConfigError { level: AdminLevel::First, cause });
        },
    };
    let second = match load_admin_file::<Admin2Data>(admin_2) {
        Ok(lookup) => lookup,
        Err(cause) => {
            return Err(StartupConfigError { level: AdminLevel::Second, cause });
        },
    };
    Ok((first, second))
}

} // verus!
