use geoseed::admin::{
    build_lookup, load_admin_file, load_admin_files, read_entry, Admin1Data, Admin2Data, AdminData,
    AdminLevel,
};
use geoseed::lookup::AdminLookup;
use geoseed::schema::{Fault, SchemaError};
use geoseed::table::{Table, TableError};

fn row(cells: &[&str]) -> Vec<String> {
    cells.iter().map(|c| c.to_string()).collect()
}

fn name<'a>(lookup: &'a AdminLookup, code: &str) -> Option<&'a str> {
    lookup.get(code).map(|n| n.as_str())
}

#[test]
fn a_lookup_holds_what_was_put_in() {
    let mut lookup = AdminLookup::new();
    assert_eq!(lookup.len(), 0);
    assert_eq!(name(&lookup, "US.CA"), None);
    lookup.insert("US.CA".to_string(), "California".to_string());
    lookup.insert("US.NY".to_string(), "New York".to_string());
    assert_eq!(lookup.len(), 2);
    assert_eq!(name(&lookup, "US.CA"), Some("California"));
    assert_eq!(name(&lookup, "US.NY"), Some("New York"));
    assert_eq!(name(&lookup, "us.ca"), None);
    lookup.insert("US.CA".to_string(), "Kalifornien".to_string());
    assert_eq!(lookup.len(), 2);
    assert_eq!(name(&lookup, "US.CA"), Some("Kalifornien"));
}

#[test]
fn a_row_of_four_cells_is_an_entry() {
    let entry: Admin1Data = read_entry(&row(&["US.CA", "California", "California", "5332921"])).unwrap();
    assert_eq!(entry.code, "US.CA");
    assert_eq!(entry.name, "California");
    assert_eq!(entry.ascii_name, "California");
    assert_eq!(entry.geonameid, 5332921);
    assert_eq!(entry.key(), "US.CA");
    assert_eq!(entry.value(), "California");
}

#[test]
fn a_second_level_entry_has_a_code_of_three_parts() {
    let entry: Admin2Data =
        read_entry(&row(&["US.CA.075", "San Francisco County", "San Francisco County", "5391997"]))
            .unwrap();
    assert_eq!(entry.key(), "US.CA.075");
    assert_eq!(entry.value(), "San Francisco County");
    assert_eq!(entry.geonameid, 5391997);
}

#[test]
fn the_key_is_the_code_and_the_value_the_name_not_the_ascii_name() {
    let entry: Admin1Data = read_entry(&row(&["DE.02", "Bayern", "Bavaria", "2951839"])).unwrap();
    assert_eq!(entry.key(), "DE.02");
    assert_eq!(entry.value(), "Bayern");
}

#[test]
fn a_short_row_is_at_fault_in_its_first_missing_column() {
    let r: Result<Admin1Data, SchemaError> = read_entry(&row(&["US.CA", "California"]));
    assert_eq!(r.unwrap_err(), SchemaError { column: 2, fault: Fault::Missing });
    let r: Result<Admin1Data, SchemaError> = read_entry(&row(&[]));
    assert_eq!(r.unwrap_err(), SchemaError { column: 0, fault: Fault::Missing });
    let r: Result<Admin1Data, SchemaError> = read_entry(&row(&["US.CA", "California", "California"]));
    assert_eq!(r.unwrap_err(), SchemaError { column: 3, fault: Fault::Missing });
}

#[test]
fn an_id_that_is_no_integer_is_a_fault() {
    let r: Result<Admin2Data, SchemaError> = read_entry(&row(&["US.CA", "California", "California", "x"]));
    assert_eq!(r.unwrap_err(), SchemaError { column: 3, fault: Fault::Integer });
    let r: Result<Admin2Data, SchemaError> = read_entry(&row(&["US.CA", "California", "California", ""]));
    assert_eq!(r.unwrap_err(), SchemaError { column: 3, fault: Fault::Integer });
}

#[test]
fn cells_behind_the_fourth_are_not_looked_at() {
    let entry: Admin1Data =
        read_entry(&row(&["US.CA", "California", "California", "5332921", "more"])).unwrap();
    assert_eq!(entry.geonameid, 5332921);
}

#[test]
fn rows_make_a_table_and_the_later_row_wins() {
    let rows = vec![
        row(&["US.CA", "California", "California", "5332921"]),
        row(&["US.NY", "New York", "New York", "5128638"]),
        row(&["US.CA", "Golden State", "Golden State", "5332921"]),
    ];
    let lookup = build_lookup::<Admin1Data>(&rows).unwrap();
    assert_eq!(lookup.len(), 2);
    assert_eq!(name(&lookup, "US.CA"), Some("Golden State"));
    assert_eq!(name(&lookup, "US.NY"), Some("New York"));
}

#[test]
fn no_rows_make_the_empty_table() {
    let lookup = build_lookup::<Admin2Data>(&Vec::new()).unwrap();
    assert_eq!(lookup.len(), 0);
}

#[test]
fn the_first_row_at_fault_fails_the_table() {
    let rows = vec![
        row(&["US.CA", "California", "California", "5332921"]),
        row(&["US.NY", "New York", "New York", "many"]),
        row(&["US.TX"]),
    ];
    match build_lookup::<Admin1Data>(&rows) {
        Err(TableError::Row { row, error }) => {
            assert_eq!(row, 1);
            assert_eq!(error, SchemaError { column: 3, fault: Fault::Integer });
        }
        other => panic!("{:?}", other.map(|l| l.len())),
    }
}

#[test]
fn a_table_is_loaded_from_the_bytes_of_its_file() {
    let data = b"US.CA\tCalifornia\tCalifornia\t5332921\nUS.NY\tNew York\tNew York\t5128638\n";
    let lookup = load_admin_file::<Admin1Data>(data).unwrap();
    assert_eq!(lookup.len(), 2);
    assert_eq!(name(&lookup, "US.CA"), Some("California"));
    assert_eq!(name(&lookup, "US.NY"), Some("New York"));
    assert_eq!(name(&lookup, "US.CA\tCalifornia"), None);
}

#[test]
fn the_first_line_of_a_table_is_a_row_not_a_header() {
    let data = b"AD.06\tSant Juli\xc3\xa0 de Loria\tSant Julia de Loria\t3039162\n";
    let lookup = load_admin_file::<Admin1Data>(data).unwrap();
    assert_eq!(lookup.len(), 1);
    assert_eq!(name(&lookup, "AD.06"), Some("Sant Julià de Loria"));
}

#[test]
fn an_empty_file_is_an_empty_table() {
    let lookup = load_admin_file::<Admin1Data>(b"").unwrap();
    assert_eq!(lookup.len(), 0);
}

#[test]
fn a_record_of_another_length_than_the_first_fails_the_load() {
    let data = b"US.CA\tCalifornia\tCalifornia\t5332921\nUS.NY\tNew York\n";
    assert!(matches!(
        load_admin_file::<Admin1Data>(data),
        Err(TableError::Unreadable { record: 1, .. })
    ));
}

#[test]
fn bytes_that_are_no_text_fail_the_load() {
    let data = b"US.CA\tCalif\xffornia\tCalifornia\t5332921\n";
    assert!(matches!(
        load_admin_file::<Admin1Data>(data),
        Err(TableError::Unreadable { record: 0, .. })
    ));
    let data = b"US.CA\tCalifornia\tCalifornia\t5332921\nUS.NY\tNew York\tNew\xff York\t5128638\n";
    assert!(matches!(
        load_admin_file::<Admin1Data>(data),
        Err(TableError::Unreadable { record: 1, .. })
    ));
}

#[test]
fn the_first_failure_in_file_order_is_the_error() {
    let data = b"US.CA\tCalifornia\tCalifornia\tx\nUS.NY\tNew York\n";
    assert!(matches!(load_admin_file::<Admin1Data>(data), Err(TableError::Row { row: 0, .. })));
    let data = b"US.CA\tCalifornia\tCalifornia\t1\nUS.NY\tNew York\nUS.TX\tTexas\tTexas\tx\n";
    assert!(matches!(
        load_admin_file::<Admin1Data>(data),
        Err(TableError::Unreadable { record: 1, .. })
    ));
}

#[test]
fn quoted_cells_and_empty_lines_are_read_as_the_reader_reads_them() {
    let data = b"US.CA\t\"Cali\tfornia\"\tCalifornia\t5332921\n\n\r\nUS.NY\tNew York\tNew York\t5128638";
    let lookup = load_admin_file::<Admin1Data>(data).unwrap();
    assert_eq!(lookup.len(), 2);
    assert_eq!(name(&lookup, "US.CA"), Some("Cali\tfornia"));
    assert_eq!(name(&lookup, "US.NY"), Some("New York"));
}

#[test]
fn a_table_is_read_record_by_record() {
    let data = b"a\tb\nc\td\ne\n";
    let mut table = Table::open(data);
    assert_eq!(table.next_row().unwrap().unwrap(), vec!["a".to_string(), "b".to_string()]);
    assert_eq!(table.next_row().unwrap().unwrap(), vec!["c".to_string(), "d".to_string()]);
    assert!(table.next_row().unwrap().is_err());
    assert!(table.next_row().is_none());
    assert!(table.next_row().is_none());
}

#[test]
fn the_reader_goes_on_behind_a_record_that_it_refused() {
    let data = b"a\tb\nc\nd\te\n";
    let mut table = Table::open(data);
    assert!(table.next_row().unwrap().is_ok());
    assert!(table.next_row().unwrap().is_err());
    assert_eq!(table.next_row().unwrap().unwrap(), vec!["d".to_string(), "e".to_string()]);
    assert!(table.next_row().is_none());
}

#[test]
fn a_malformed_row_in_a_file_fails_the_load() {
    let data = b"US.CA\tCalifornia\tCalifornia\t5332921\nUS.NY\tNew York\tNew York\tabc\n";
    match load_admin_file::<Admin1Data>(data) {
        Err(TableError::Row { row, error }) => {
            assert_eq!(row, 1);
            assert_eq!(error, SchemaError { column: 3, fault: Fault::Integer });
        }
        other => panic!("{:?}", other.map(|l| l.len())),
    }
}

#[test]
fn both_tables_are_loaded() {
    let first = b"US.CA\tCalifornia\tCalifornia\t5332921\n";
    let second = b"US.CA.075\tSan Francisco County\tSan Francisco County\t5391997\n";
    let (admin1, admin2) = load_admin_files(first, second).unwrap();
    assert_eq!(name(&admin1, "US.CA"), Some("California"));
    assert_eq!(name(&admin2, "US.CA.075"), Some("San Francisco County"));
    assert_eq!(admin1.len(), 1);
    assert_eq!(admin2.len(), 1);
}

#[test]
fn the_first_table_that_fails_is_named() {
    let good = b"US.CA\tCalifornia\tCalifornia\t5332921\n";
    let bad = b"US.CA\tCalifornia\tCalifornia\tnone\n";
    let e = load_admin_files(bad, good).err().unwrap();
    assert_eq!(e.level, AdminLevel::First);
    assert!(matches!(e.cause, TableError::Row { row: 0, .. }));
    let e = load_admin_files(good, bad).err().unwrap();
    assert_eq!(e.level, AdminLevel::Second);
    assert!(matches!(e.cause, TableError::Row { row: 0, .. }));
    let e = load_admin_files(bad, bad).err().unwrap();
    assert_eq!(e.level, AdminLevel::First);
}
