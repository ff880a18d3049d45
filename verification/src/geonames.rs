//! Gazetteer records and the search documents made from them.

use crate::coordinate::Coordinate;
use crate::date::{date_of_text, parse_date, Date};
use crate::lookup::{name_of, AdminLookup};
use crate::schema::{
    cell, cell_at, first_fault, lemma_column_at_fault, lemma_column_sound, lemma_columns_done,
    optional_character, optional_integer, optional_text, read_float, read_integer,
    read_optional_character, read_optional_integer, read_optional_text, read_text, ColumnKind,
    Fault, Row, SchemaError,
};
use crate::text::{decimal, decimal_string, parsed_i64, uppercase};
use vstd::prelude::*;
use vstd::string::*;

verus! {

/// One row of the gazetteer.
#[derive(Debug, PartialEq, Eq)]
pub struct Location {
    /// The record's id, unique within the gazetteer.
    pub id: i64,
    pub name: String,
    pub ascii_name: String,
    /// The alternate names, joined by commas.
    pub alternate_names: String,
    pub latitude: Coordinate,
    pub longitude: Coordinate,
    pub feature_class: Option<char>,
    pub feature_code: String,
    pub country_code: String,
    /// Further country codes, joined by commas.
    pub cc2: String,
    /// The codes of the administrative levels; empty where there is none.
    pub admin1_code: String,
    pub admin2_code: String,
    pub admin3_code: String,
    pub admin4_code: Option<String>,
    pub population: Option<i64>,
    /// Elevation in metres.
    pub elevation: Option<i64>,
    /// Elevation by the digital elevation model, in metres.
    pub dem: Option<i64>,
    pub timezone: String,
    pub modification_date: Date,
}

/// What a [`Location`] holds.
pub struct LocationView {
    pub id: i64,
    pub name: Seq<char>,
    pub ascii_name: Seq<char>,
    pub alternate_names: Seq<char>,
    pub latitude: Seq<char>,
    pub longitude: Seq<char>,
    pub feature_class: Option<char>,
    pub feature_code: Seq<char>,
    pub country_code: Seq<char>,
    pub cc2: Seq<char>,
    pub admin1_code: Seq<char>,
    pub admin2_code: Seq<char>,
    pub admin3_code: Seq<char>,
    pub admin4_code: Option<Seq<char>>,
    pub population: Option<i64>,
    pub elevation: Option<i64>,
    pub dem: Option<i64>,
    pub timezone: Seq<char>,
    pub modification_date: Date,
}

impl View for Location {
    type V = LocationView;

    open spec fn view(&self) -> LocationView {
        LocationView {
            id: self.id,
            name: self.name@,
            ascii_name: self.ascii_name@,
            alternate_names: self.alternate_names@,
            latitude: self.latitude@,
            longitude: self.longitude@,
            feature_class: self.feature_class,
            feature_code: self.feature_code@,
            country_code: self.country_code@,
            cc2: self.cc2@,
            admin1_code: self.admin1_code@,
            admin2_code: self.admin2_code@,
            admin3_code: self.admin3_code@,
            admin4_code: self.admin4_code.deep_view(),
            population: self.population,
            elevation: self.elevation,
            dem: self.dem,
            timezone: self.timezone@,
            modification_date: self.modification_date,
        }
    }
}

impl Clone for Location {
    fn clone(&self) -> (copy: Location)
        ensures
            copy == *self,
    {
        Location {
            id: self.id,
            name: self.name.clone(),
            ascii_name: self.ascii_name.clone(),
            alternate_names: self.alternate_names.clone(),
            latitude: self.latitude.clone(),
            longitude: self.longitude.clone(),
            feature_class: self.feature_class,
            feature_code: self.feature_code.clone(),
            country_code: self.country_code.clone(),
            cc2: self.cc2.clone(),
            admin1_code: self.admin1_code.clone(),
            admin2_code: self.admin2_code.clone(),
            admin3_code: self.admin3_code.clone(),
            admin4_code: match &self.admin4_code {
                Some(code) => Some(code.clone()),
                None => None,
            },
            population: self.population,
            elevation: self.elevation,
            dem: self.dem,
            timezone: self.timezone.clone(),
            modification_date: self.modification_date,
        }
    }
}

/// The document that the search index holds for a record.
#[derive(Debug, PartialEq, Eq)]
pub struct SearchDocument {
    pub name: String,
    pub ascii_name: String,
    pub alternate_names: String,
    /// Longitude first, then latitude.
    pub location: [Coordinate; 2],
    pub elevation: Option<i64>,
    pub country_code: String,
    pub feature_code: String,
    pub feature_class: Option<char>,
    /// The display name of the first-level subdivision, where it is known.
    pub admin1: Option<String>,
    /// The display name of the second-level subdivision, where it is known.
    pub admin2: Option<String>,
    pub population: Option<i64>,
    pub timezone: String,
    pub modification_date: Date,
}

/// What a [`SearchDocument`] holds.
pub struct SearchDocumentView {
    pub name: Seq<char>,
    pub ascii_name: Seq<char>,
    pub alternate_names: Seq<char>,
    pub location: Seq<Seq<char>>,
    pub elevation: Option<i64>,
    pub country_code: Seq<char>,
    pub feature_code: Seq<char>,
    pub feature_class: Option<char>,
    pub admin1: Option<Seq<char>>,
    pub admin2: Option<Seq<char>>,
    pub population: Option<i64>,
    pub timezone: Seq<char>,
    pub modification_date: Date,
}

impl View for SearchDocument {
    type V = SearchDocumentView;

    open spec fn view(&self) -> SearchDocumentView {
        SearchDocumentView {
            name: self.name@,
            ascii_name: self.ascii_name@,
            alternate_names: self.alternate_names@,
            location: seq![self.location@[0]@, self.location@[1]@],
            elevation: self.elevation,
            country_code: self.country_code@,
            feature_code: self.feature_code@,
            feature_class: self.feature_class,
            admin1: self.admin1.deep_view(),
            admin2: self.admin2.deep_view(),
            population: self.population,
            timezone: self.timezone@,
            modification_date: self.modification_date,
        }
    }
}

// ---------------------------------------------------------------------------
// Decoding
// ---------------------------------------------------------------------------

/// The column of the modification date.
pub const DATE_COLUMN: usize = 18;

/// The nineteen columns of a gazetteer row, in their order.
#[verifier::opaque]
pub open spec fn location_schema() -> Seq<ColumnKind> {
    seq![
        ColumnKind::Integer,
        ColumnKind::Text,
        ColumnKind::Text,
        ColumnKind::Text,
        ColumnKind::Float,
        ColumnKind::Float,
        ColumnKind::OptionalCharacter,
        ColumnKind::Text,
        ColumnKind::Text,
        ColumnKind::Text,
        ColumnKind::Text,
        ColumnKind::Text,
        ColumnKind::Text,
        ColumnKind::OptionalText,
        ColumnKind::OptionalInteger,
        ColumnKind::OptionalInteger,
        ColumnKind::OptionalInteger,
        ColumnKind::Text,
        ColumnKind::Date,
    ]
}

/// The schema, column by column.
pub proof fn lemma_location_schema()
    ensures
        location_schema().len() == 19,
        location_schema()[0] == ColumnKind::Integer,
        location_schema()[1] == ColumnKind::Text,
        location_schema()[2] == ColumnKind::Text,
        location_schema()[3] == ColumnKind::Text,
        location_schema()[4] == ColumnKind::Float,
        location_schema()[5] == ColumnKind::Float,
        location_schema()[6] == ColumnKind::OptionalCharacter,
        location_schema()[7] == ColumnKind::Text,
        location_schema()[8] == ColumnKind::Text,
        location_schema()[9] == ColumnKind::Text,
        location_schema()[10] == ColumnKind::Text,
        location_schema()[11] == ColumnKind::Text,
        location_schema()[12] == ColumnKind::Text,
        location_schema()[13] == ColumnKind::OptionalText,
        location_schema()[14] == ColumnKind::OptionalInteger,
        location_schema()[15] == ColumnKind::OptionalInteger,
        location_schema()[16] == ColumnKind::OptionalInteger,
        location_schema()[17] == ColumnKind::Text,
        location_schema()[18] == ColumnKind::Date,
{
    reveal(location_schema);
}

/// The record that a row without fault stands for; `date` is its date.
pub open spec fn location_of(row: Row, date: Date) -> LocationView {
    LocationView {
        id: parsed_i64(row[0]).unwrap(),
        name: row[1],
        ascii_name: row[2],
        alternate_names: row[3],
        latitude: row[4],
        longitude: row[5],
        feature_class: optional_character(cell(row, 6)),
        feature_code: row[7],
        country_code: row[8],
        cc2: row[9],
        admin1_code: row[10],
        admin2_code: row[11],
        admin3_code: row[12],
        admin4_code: optional_text(cell(row, 13)),
        population: optional_integer(cell(row, 14)),
        elevation: optional_integer(cell(row, 15)),
        dem: optional_integer(cell(row, 16)),
        timezone: row[17],
        modification_date: date,
    }
}

/// What decoding `row` gives when reading its date cell gave `date`: the
/// row's first fault, or the record.
pub open spec fn decoded_with(row: Row, date: Option<Date>) -> Result<LocationView, SchemaError> {
    match first_fault(location_schema(), row, date) {
        Some(e) => Err(e),
        None => Ok(location_of(row, date.unwrap())),
    }
}

/// What reading the date cell of `row` gives.
pub open spec fn date_read(row: Row) -> Option<Date> {
    match cell(row, DATE_COLUMN as int) {
        Some(text) => date_of_text(text),
        None => None,
    }
}

/// What decoding `row` gives.
pub open spec fn decoded(row: Row) -> Result<LocationView, SchemaError> {
    decoded_with(row, date_read(row))
}

/// `r` is the outcome `expected`, the record taken by its view.
pub open spec fn decodes_to(r: Result<Location, SchemaError>, expected: Result<
    LocationView,
    SchemaError,
>) -> bool {
    match r {
        Ok(location) => expected == Ok::<_, SchemaError>(location@),
        Err(e) => expected == Err::<LocationView, _>(e),
    }
}

impl Location {
    /// Decodes a row, given what reading its date cell gave.
    ///
    /// The columns are read in their order and the first one at fault is
    /// the error. A row longer than the schema is read up to the schema's end.
    pub fn from_row_with_date(row: &Vec<String>, date: Option<Date>) -> (r: Result<
        Location,
        SchemaError,
    >)
        ensures
            decodes_to(r, decoded_with(row.deep_view(), date)),
    {
        let ghost schema = location_schema();
        let ghost cells = row.deep_view();
        proof {
            lemma_location_schema();
        }
        let id = match read_integer(row, 0) {
            Ok(v) => v,
            Err(e) => {
                proof {
                    lemma_column_at_fault(schema, cells, date, 0, e.fault);
                }
                return Err(e);
            },
        };
        proof {
            lemma_column_sound(schema, cells, date, 0);
        }
        let name = match read_text(row, 1) {
            Ok(v) => v,
            Err(e) => {
                proof {
                    lemma_column_at_fault(schema, cells, date, 1, e.fault);
                }
                return Err(e);
            },
        };
        proof {
            lemma_column_sound(schema, cells, date, 1);
        }
        let ascii_name = match read_text(row, 2) {
            Ok(v) => v,
            Err(e) => {
                proof {
                    lemma_column_at_fault(schema, cells, date, 2, e.fault);
                }
                return Err(e);
            },
        };
        proof {
            lemma_column_sound(schema, cells, date, 2);
        }
        let alternate_names = match read_text(row, 3) {
            Ok(v) => v,
            Err(e) => {
                proof {
                    lemma_column_at_fault(schema, cells, date, 3, e.fault);
                }
                return Err(e);
            },
        };
        proof {
            lemma_column_sound(schema, cells, date, 3);
        }
        let latitude = match read_float(row, 4) {
            Ok(v) => v,
            Err(e) => {
                proof {
                    lemma_column_at_fault(schema, cells, date, 4, e.fault);
                }
                return Err(e);
            },
        };
        proof {
            lemma_column_sound(schema, cells, date, 4);
        }
        let longitude = match read_float(row, 5) {
            Ok(v) => v,
            Err(e) => {
                proof {
                    lemma_column_at_fault(schema, cells, date, 5, e.fault);
                }
                return Err(e);
            },
        };
        proof {
            lemma_column_sound(schema, cells, date, 5);
        }
        let feature_class = match read_optional_character(row, 6) {
            Ok(v) => v,
            Err(e) => {
                proof {
                    lemma_column_at_fault(schema, cells, date, 6, e.fault);
                }
                return Err(e);
            },
        };
        proof {
            lemma_column_sound(schema, cells, date, 6);
        }
        let feature_code = match read_text(row, 7) {
            Ok(v) => v,
            Err(e) => {
                proof {
                    lemma_column_at_fault(schema, cells, date, 7, e.fault);
                }
                return Err(e);
            },
        };
        proof {
            lemma_column_sound(schema, cells, date, 7);
        }
        let country_code = match read_text(row, 8) {
            Ok(v) => v,
            Err(e) => {
                proof {
                    lemma_column_at_fault(schema, cells, date, 8, e.fault);
                }
                return Err(e);
            },
        };
        proof {
            lemma_column_sound(schema, cells, date, 8);
        }
        let cc2 = match read_text(row, 9) {
            Ok(v) => v,
            Err(e) => {
                proof {
                    lemma_column_at_fault(schema, cells, date, 9, e.fault);
                }
                return Err(e);
            },
        };
        proof {
            lemma_column_sound(schema, cells, date, 9);
        }
        let admin1_code = match read_text(row, 10) {
            Ok(v) => v,
            Err(e) => {
                proof {
                    lemma_column_at_fault(schema, cells, date, 10, e.fault);
                }
                return Err(e);
            },
        };
        proof {
            lemma_column_sound(schema, cells, date, 10);
        }
        let admin2_code = match read_text(row, 11) {
            Ok(v) => v,
            Err(e) => {
                proof {
                    lemma_column_at_fault(schema, cells, date, 11, e.fault);
                }
                return Err(e);
            },
        };
        proof {
            lemma_column_sound(schema, cells, date, 11);
        }
        let admin3_code = match read_text(row, 12) {
            Ok(v) => v,
            Err(e) => {
                proof {
                    lemma_column_at_fault(schema, cells, date, 12, e.fault);
                }
                return Err(e);
            },
        };
        proof {
            lemma_column_sound(schema, cells, date, 12);
        }
        let admin4_code = read_optional_text(row, 13);
        proof {
            lemma_column_sound(schema, cells, date, 13);
        }
        let population = match read_optional_integer(row, 14) {
            Ok(v) => v,
            Err(e) => {
                proof {
                    lemma_column_at_fault(schema, cells, date, 14, e.fault);
                }
                return Err(e);
            },
        };
        proof {
            lemma_column_sound(schema, cells, date, 14);
        }
        let elevation = match read_optional_integer(row, 15) {
            Ok(v) => v,
            Err(e) => {
                proof {
                    lemma_column_at_fault(schema, cells, date, 15, e.fault);
                }
                return Err(e);
            },
        };
        proof {
            lemma_column_sound(schema, cells, date, 15);
        }
        let dem = match read_optional_integer(row, 16) {
            Ok(v) => v,
            Err(e) => {
                proof {
                    lemma_column_at_fault(schema, cells, date, 16, e.fault);
                }
                return Err(e);
            },
        };
        proof {
            lemma_column_sound(schema, cells, date, 16);
        }
        let timezone = match read_text(row, 17) {
            Ok(v) => v,
            Err(e) => {
                proof {
                    lemma_column_at_fault(schema, cells, date, 17, e.fault);
                }
                return Err(e);
            },
        };
        proof {
            lemma_column_sound(schema, cells, date, 17);
        }
        if row.len() <= DATE_COLUMN {
            proof {
                lemma_column_at_fault(schema, cells, date, 18, Fault::Missing);
            }
            return Err(SchemaError { column: DATE_COLUMN, fault: Fault::Missing });
        }
        let modification_date = match date {
            Some(d) => d,
            None => {
                proof {
                    lemma_column_at_fault(schema, cells, date, 18, Fault::Date);
                }
                return Err(SchemaError { column: DATE_COLUMN, fault: Fault::Date });
            },
        };
        proof {
            lemma_column_sound(schema, cells, date, 18);
            lemma_columns_done(schema, cells, date);
        }
        Ok(
            Location {
                id,
                name,
                ascii_name,
                alternate_names,
                latitude,
                longitude,
                feature_class,
                feature_code,
                country_code,
                cc2,
                admin1_code,
                admin2_code,
                admin3_code,
                admin4_code,
                population,
                elevation,
                dem,
                timezone,
                modification_date,
            },
        )
    }

    /// Decodes a row of the gazetteer.
    pub fn from_row(row: &Vec<String>) -> (r: Result<Location, SchemaError>)
        ensures
            decodes_to(r, decoded(row.deep_view())),
    {
        let date = match cell_at(row, DATE_COLUMN) {
            Some(text) => parse_date(text),
            None => None,
        };
        Location::from_row_with_date(row, date)
    }
}

// ---------------------------------------------------------------------------
// Enrichment
// ---------------------------------------------------------------------------

/// The population as the index gets it: a negative figure stands for "no
/// data" and is dropped; any other figure, and an absent one, stay.
pub open spec fn sanitized_population(population: Option<i64>) -> Option<i64> {
    match population {
        Some(p) => if p >= 0 {
            Some(p)
        } else {
            None
        },
        None => None,
    }
}

/// The code under which a record's first-level subdivision is looked up:
/// the country, a point, the first-level code. `country` is the record's
/// country code in upper case.
pub open spec fn admin1_key(country: Seq<char>, record: LocationView) -> Seq<char> {
    country + seq!['.'] + record.admin1_code
}

/// The code under which a record's second-level subdivision is looked up:
/// the first-level key, a point, the second-level code.
pub open spec fn admin2_key(country: Seq<char>, record: LocationView) -> Seq<char> {
    admin1_key(country, record) + seq!['.'] + record.admin2_code
}

/// The document of `record`, where `country` is its country code in upper
/// case and `admin1`, `admin2` are the tables of regions.
pub open spec fn document_with(
    record: LocationView,
    country: Seq<char>,
    admin1: Map<Seq<char>, Seq<char>>,
    admin2: Map<Seq<char>, Seq<char>>,
) -> SearchDocumentView {
    SearchDocumentView {
        name: record.name,
        ascii_name: record.ascii_name,
        alternate_names: record.alternate_names,
        location: seq![record.longitude, record.latitude],
        elevation: record.elevation,
        country_code: record.country_code,
        feature_code: record.feature_code,
        feature_class: record.feature_class,
        admin1: name_of(admin1, admin1_key(country, record)),
        admin2: name_of(admin2, admin2_key(country, record)),
        population: sanitized_population(record.population),
        timezone: record.timezone,
        modification_date: record.modification_date,
    }
}

/// The document of `record`.
pub open spec fn document_of(
    record: LocationView,
    admin1: Map<Seq<char>, Seq<char>>,
    admin2: Map<Seq<char>, Seq<char>>,
) -> SearchDocumentView {
    document_with(record, uppercase(record.country_code), admin1, admin2)
}

/// Drops a negative population figure.
pub fn sanitize_population(population: Option<i64>) -> (out: Option<i64>)
    ensures
        out == sanitized_population(population),
{
    match population {
        Some(p) => if p >= 0 {
            Some(p)
        } else {
            None
        },
        None => None,
    }
}

/// An owned copy of a name that was looked up.
fn owned_name(name: Option<&String>) -> (out: Option<String>)
    ensures
        out.deep_view() == name.deep_view(),
{
    match name {
        Some(n) => Some(n.clone()),
        None => None,
    }
}

/// One unit of a bulk request: a document and the id under which the index
/// stores it, replacing what it held under that id.
#[derive(Debug, PartialEq, Eq)]
pub struct PendingOperation {
    pub id: String,
    pub document: SearchDocument,
}

/// What a [`PendingOperation`] holds.
pub struct PendingOperationView {
    pub id: Seq<char>,
    pub document: SearchDocumentView,
}

impl View for PendingOperation {
    type V = PendingOperationView;

    open spec fn view(&self) -> PendingOperationView {
        PendingOperationView { id: self.id@, document: self.document@ }
    }
}

/// The operation that indexes `record`: its document under its id in decimal.
pub open spec fn operation_of(
    record: LocationView,
    admin1: Map<Seq<char>, Seq<char>>,
    admin2: Map<Seq<char>, Seq<char>>,
) -> PendingOperationView {
    PendingOperationView {
        id: decimal(record.id as int),
        document: document_of(record, admin1, admin2),
    }
}

impl Location {
    /// The text by which a record is listed: its name, a comma and a space,
    /// its country code.
    pub fn key(&self) -> (key: String)
        ensures
            key@ == self@.name + seq![',', ' '] + self@.country_code,
    {
        proof {
            reveal_strlit(", ");
        }
        let mut key = self.name.clone();
        key.append(", ");
        key.append(self.country_code.as_str());
        assert(", "@ =~= seq![',', ' ']);
        key
    }

    /// The document of the record, given its country code in upper case.
    pub fn document_with_country(
        &self,
        country: &str,
        admin1: &AdminLookup,
        admin2: &AdminLookup,
    ) -> (doc: SearchDocument)
        ensures
            doc@ == document_with(self@, country@, admin1@, admin2@),
    {
        proof {
            reveal_strlit(".");
        }
        let mut key1 = country.to_owned();
        key1.append(".");
        key1.append(self.admin1_code.as_str());
        let mut key2 = key1.clone();
        key2.append(".");
        key2.append(self.admin2_code.as_str());
        proof {
            assert("."@ =~= seq!['.']);
            assert(key1@ =~= admin1_key(country@, self@));
            assert(key2@ =~= admin2_key(country@, self@));
        }
        let doc = SearchDocument {
            name: self.name.clone(),
            ascii_name: self.ascii_name.clone(),
            alternate_names: self.alternate_names.clone(),
            location: [self.longitude.clone(), self.latitude.clone()],
            elevation: self.elevation,
            country_code: self.country_code.clone(),
            feature_code: self.feature_code.clone(),
            feature_class: self.feature_class,
            admin1: owned_name(admin1.get(key1.as_str())),
            admin2: owned_name(admin2.get(key2.as_str())),
            population: sanitize_population(self.population),
            timezone: self.timezone.clone(),
            modification_date: self.modification_date,
        };
        proof {
            assert(doc@.location =~= seq![self@.longitude, self@.latitude]);
        }
        doc
    }

    /// The document that the search index gets for the record.
    ///
    /// The names of the two subdivisions are looked up under the country
    /// code in upper case and the record's codes; a code that the tables do
    /// not have leaves the name out. The coordinates come out longitude
    /// first. A negative population is left out.
    pub fn generate_elasticsearch_document(
        &self,
        admin1: &AdminLookup,
        admin2: &AdminLookup,
    ) -> (doc: SearchDocument)
        ensures
            doc@ == document_of(self@, admin1@, admin2@),
            doc@.location == seq![self@.longitude, self@.latitude],
            doc@.population == sanitized_population(self@.population),
            doc@.admin1 == name_of(admin1@, admin1_key(uppercase(self@.country_code), self@)),
            doc@.admin2 == name_of(admin2@, admin2_key(uppercase(self@.country_code), self@)),
    {
        let country = self.country_code.to_uppercase();
        self.document_with_country(country.as_str(), admin1, admin2)
    }

    /// The operation that indexes the record.
    pub fn index_operation(&self, admin1: &AdminLookup, admin2: &AdminLookup) -> (op:
        PendingOperation)
        ensures
            op@ == operation_of(self@, admin1@, admin2@),
    {
        PendingOperation {
            id: decimal_string(self.id),
            document: self.generate_elasticsearch_document(admin1, admin2),
        }
    }
}

// ---------------------------------------------------------------------------
// The index mapping
// ---------------------------------------------------------------------------

/// The types that the index gives its fields.
#[derive(Clone, Copy, Debug, PartialEq, Eq, Structural)]
pub enum FieldType {
    Text,
    GeoPoint,
    Keyword,
    UnsignedLong,
    Integer,
    Date,
}

/// The name of a field type in the search engine's mapping language.
pub open spec fn mapping_name_of(kind: FieldType) -> Seq<char> {
    match kind {
        FieldType::Text => "text"@,
        FieldType::GeoPoint => "geo_point"@,
        FieldType::Keyword => "keyword"@,
        FieldType::UnsignedLong => "unsigned_long"@,
        FieldType::Integer => "integer"@,
        FieldType::Date => "date"@,
    }
}

impl FieldType {
    /// The name of the type in the search engine's mapping language.
    pub fn mapping_name(&self) -> (name: &'static str)
        ensures
            name@ == mapping_name_of(*self),
    {
        match self {
            FieldType::Text => "text",
            FieldType::GeoPoint => "geo_point",
            FieldType::Keyword => "keyword",
            FieldType::UnsignedLong => "unsigned_long",
            FieldType::Integer => "integer",
            FieldType::Date => "date",
        }
    }
}

/// A field of the index and its type.
#[derive(Clone, Copy, Debug, PartialEq, Eq)]
pub struct FieldMapping {
    pub field: &'static str,
    pub kind: FieldType,
}

impl View for FieldMapping {
    type V = (Seq<char>, FieldType);

    open spec fn view(&self) -> (Seq<char>, FieldType) {
        (self.field@, self.kind)
    }
}

/// The mapping of the index: its fields, each with its type.
pub open spec fn index_mapping() -> Seq<(Seq<char>, FieldType)> {
    seq![
        ("name"@, FieldType::Text),
        ("ascii_name"@, FieldType::Text),
        ("alternate_names"@, FieldType::Text),
        ("location"@, FieldType::GeoPoint),
        ("country_code"@, FieldType::Keyword),
        ("feature_code"@, FieldType::Keyword),
        ("admin1"@, FieldType::Text),
        ("admin2"@, FieldType::Text),
        ("feature_class"@, FieldType::Keyword),
        ("population"@, FieldType::UnsignedLong),
        ("elevation"@, FieldType::Integer),
        ("timezone"@, FieldType::Keyword),
        ("modification_date"@, FieldType::Date),
    ]
}

/// The fields of `mapping`, each taken by its view.
pub open spec fn mapping_view(mapping: Seq<FieldMapping>) -> Seq<(Seq<char>, FieldType)> {
    Seq::new(mapping.len(), |i: int| mapping[i]@)
}

impl Location {
    /// The mapping that the index must have before documents are sent to it.
    pub fn generate_mapping() -> (mapping: Vec<FieldMapping>)
        ensures
            mapping_view(mapping@) == index_mapping(),
    {
        let mut mapping: Vec<FieldMapping> = Vec::new();
        mapping.push(FieldMapping { field: "name", kind: FieldType::Text });
        mapping.push(FieldMapping { field: "ascii_name", kind: FieldType::Text });
        mapping.push(FieldMapping { field: "alternate_names", kind: FieldType::Text });
        mapping.push(FieldMapping { field: "location", kind: FieldType::GeoPoint });
        mapping.push(FieldMapping { field: "country_code", kind: FieldType::Keyword });
        mapping.push(FieldMapping { field: "feature_code", kind: FieldType::Keyword });
        mapping.push(FieldMapping { field: "admin1", kind: FieldType::Text });
        mapping.push(FieldMapping { field: "admin2", kind: FieldType::Text });
        mapping.push(FieldMapping { field: "feature_class", kind: FieldType::Keyword });
        mapping.push(FieldMapping { field: "population", kind: FieldType::UnsignedLong });
        mapping.push(FieldMapping { field: "elevation", kind: FieldType::Integer });
        mapping.push(FieldMapping { field: "timezone", kind: FieldType::Keyword });
        mapping.push(FieldMapping { field: "modification_date", kind: FieldType::Date });
        assert(mapping_view(mapping@) =~= index_mapping());
        mapping
    }
}

} // verus!
