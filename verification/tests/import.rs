use metervalues::import::run::{DbEvent, ImportAction, ImportRun};
use metervalues::import::{
    import_meter_instances, import_meters, import_readings, read_meter_instance_rows,
    read_meter_rows, read_reading_rows, ImportError,
};
use metervalues::models::NewMeterInstance;
use metervalues::values::{Date, Decimal};

fn date(year: i32, month: u32, day: u32) -> Date {
    Date { year, month, day }
}

fn begun(run: &mut ImportRun, first: ImportAction) -> ImportAction {
    assert!(matches!(first, ImportAction::Begin));
    run.step(DbEvent::Begun)
}

#[test]
fn import_meters_from_valid_csv() {
    let csv_data = "name,unit\nImport Test Electricity,kWh\nImport Test Water,m³\n";
    let (mut run, first) = import_meters(csv_data.as_bytes()).expect("Could not import meters");
    match begun(&mut run, first) {
        ImportAction::InsertMeter { name, unit } => {
            assert_eq!(name, "Import Test Electricity");
            assert_eq!(unit, "kWh");
        }
        other => panic!("unexpected action {other:?}"),
    }
    match run.step(DbEvent::Inserted(1)) {
        ImportAction::InsertMeter { name, unit } => {
            assert_eq!(name, "Import Test Water");
            assert_eq!(unit, "m³");
        }
        other => panic!("unexpected action {other:?}"),
    }
    assert!(matches!(run.step(DbEvent::Inserted(2)), ImportAction::Commit));
    match run.step(DbEvent::Committed) {
        ImportAction::Finish(ids) => assert_eq!(ids.len(), 2),
        other => panic!("unexpected action {other:?}"),
    }
}

#[test]
fn import_meters_with_invalid_csv_returns_error() {
    let csv_data = "name\nInvalid Import Test\n";
    let result = import_meters(csv_data.as_bytes());
    assert!(result.is_err());
    match result {
        Err(ImportError::MissingColumn(column)) => assert_eq!(column, "unit"),
        other => panic!("unexpected result {other:?}"),
    }
}

#[test]
fn import_meters_rolls_back_when_csv_contains_invalid_row() {
    let csv_data = "name,unit\nImport Rollback Test,kWh\nInvalid Import Test\n";
    let result = import_meters(csv_data.as_bytes());
    assert!(result.is_err());
    assert!(matches!(result, Err(ImportError::Csv(_))));
}

#[test]
fn import_meter_instances_from_valid_csv() {
    let csv_data = "meter_name,meter_number,initial_reading,initial_reading_date,installed_at
Import Electricity,IMPORT-12345,0.000,2026-01-01,2026-01-01
";
    let result = import_meter_instances(csv_data.as_bytes());
    assert!(result.is_ok(), "Expected meter instance import to succeed: {result:?}");
    let (mut run, first) = result.unwrap();
    match begun(&mut run, first) {
        ImportAction::LookupMeter { name } => assert_eq!(name, "Import Electricity"),
        other => panic!("unexpected action {other:?}"),
    }
    let meter_id = 42;
    match run.step(DbEvent::Found(meter_id)) {
        ImportAction::InsertInstance(instance) => {
            assert_eq!(
                instance,
                NewMeterInstance {
                    meter_id,
                    meter_number: "IMPORT-12345".to_string(),
                    initial_reading: Decimal { mantissa: 0, scale: 0 },
                    initial_reading_date: date(2026, 1, 1),
                    installed_at: date(2026, 1, 1),
                    removed_at: None,
                }
            );
        }
        other => panic!("unexpected action {other:?}"),
    }
    assert!(matches!(run.step(DbEvent::Inserted(7)), ImportAction::Commit));
    match run.step(DbEvent::Committed) {
        ImportAction::Finish(ids) => {
            assert_eq!(ids.len(), 1);
            assert_eq!(ids[0], 7);
        }
        other => panic!("unexpected action {other:?}"),
    }
}

#[test]
fn import_multiple_meter_instances_from_valid_csv() {
    let csv_data = "meter_name,meter_number,initial_reading,initial_reading_date,installed_at,removed_at
Multiple Instance Import Test,IMPORT-MULTI-001,0.000,2026-01-01,2026-01-01,2026-08-19
Multiple Instance Import Test,IMPORT-MULTI-002,100.000,2026-08-20,2026-08-20,
";
    let rows = read_meter_instance_rows(csv_data.as_bytes()).expect("rows");
    assert_eq!(rows.len(), 2, "Expected both meter instances to be imported");
    assert_eq!(rows[0].meter_number, "IMPORT-MULTI-001");
    assert_eq!(rows[0].initial_reading, Decimal { mantissa: 0, scale: 0 });
    assert_eq!(rows[0].removed_at, Some(date(2026, 8, 19)));
    assert_eq!(rows[1].meter_number, "IMPORT-MULTI-002");
    assert_eq!(rows[1].initial_reading, Decimal { mantissa: 100, scale: 0 });
    assert_eq!(rows[1].removed_at, None);

    let (mut run, first) = import_meter_instances(csv_data.as_bytes()).expect("import");
    assert!(matches!(begun(&mut run, first), ImportAction::LookupMeter { .. }));
    assert!(matches!(run.step(DbEvent::Found(5)), ImportAction::InsertInstance(_)));
    assert!(matches!(run.step(DbEvent::Inserted(100)), ImportAction::LookupMeter { .. }));
    match run.step(DbEvent::Found(5)) {
        ImportAction::InsertInstance(instance) => {
            assert_eq!(instance.meter_id, 5);
            assert_eq!(instance.meter_number, "IMPORT-MULTI-002");
        }
        other => panic!("unexpected action {other:?}"),
    }
    assert!(matches!(run.step(DbEvent::Inserted(101)), ImportAction::Commit));
    match run.step(DbEvent::Committed) {
        ImportAction::Finish(ids) => assert_eq!(ids, vec![100, 101]),
        other => panic!("unexpected action {other:?}"),
    }
}

#[test]
fn import_readings_from_csv_rows() {
    let csv_data = "meter_number,reading_date,value\nREADING-IMPORT-001,2026-02-01,123.456\n";
    let rows = read_reading_rows(csv_data.as_bytes()).expect("rows");
    assert_eq!(rows.len(), 1);
    assert_eq!(rows[0].meter_number, "READING-IMPORT-001");
    assert_eq!(rows[0].reading_date, date(2026, 2, 1));
    assert_eq!(rows[0].value, Decimal { mantissa: 123_456, scale: 3 });

    let (mut run, first) = import_readings(csv_data.as_bytes()).expect("import");
    match begun(&mut run, first) {
        ImportAction::LookupInstance { meter_number } => assert_eq!(meter_number, "READING-IMPORT-001"),
        other => panic!("unexpected action {other:?}"),
    }
    match run.step(DbEvent::Found(9)) {
        ImportAction::InsertReading(reading) => {
            assert_eq!(reading.meter_instance_id, 9);
            assert_eq!(reading.value, Decimal { mantissa: 123_456, scale: 3 });
        }
        other => panic!("unexpected action {other:?}"),
    }
}

#[test]
fn failed_insert_aborts_the_import() {
    let csv_data = "name,unit\nA,kWh\nB,m³\n";
    let (mut run, first) = import_meters(csv_data.as_bytes()).unwrap();
    assert!(matches!(begun(&mut run, first), ImportAction::InsertMeter { .. }));
    assert!(matches!(run.step(DbEvent::Inserted(1)), ImportAction::InsertMeter { .. }));
    assert!(matches!(run.step(DbEvent::Failed), ImportAction::Abort));
    // A failed run stays failed: it never commits.
    assert!(matches!(run.step(DbEvent::Inserted(2)), ImportAction::Abort));
    assert!(matches!(run.step(DbEvent::Committed), ImportAction::Abort));
}

#[test]
fn missing_meter_aborts_the_instance_import() {
    let csv_data = "meter_name,meter_number,initial_reading,initial_reading_date,installed_at
Nowhere,N-1,1,2026-01-01,2026-01-01
";
    let (mut run, first) = import_meter_instances(csv_data.as_bytes()).unwrap();
    assert!(matches!(begun(&mut run, first), ImportAction::LookupMeter { .. }));
    assert!(matches!(run.step(DbEvent::Failed), ImportAction::Abort));
}

#[test]
fn unexpected_answer_aborts_the_import() {
    let (mut run, first) = import_meters(b"name,unit\nA,kWh\n").unwrap();
    assert!(matches!(begun(&mut run, first), ImportAction::InsertMeter { .. }));
    // A meter row needs no lookup.
    assert!(matches!(run.step(DbEvent::Found(3)), ImportAction::Abort));
}

#[test]
fn empty_import_commits_at_once() {
    let (mut run, first) = import_meters(b"name,unit\n").unwrap();
    assert!(matches!(begun(&mut run, first), ImportAction::Commit));
    match run.step(DbEvent::Committed) {
        ImportAction::Finish(ids) => assert!(ids.is_empty()),
        other => panic!("unexpected action {other:?}"),
    }
    // A file without data rows denotes no rows, whatever its headers.
    assert_eq!(read_meter_rows(b"name\n").unwrap().len(), 0);
    assert_eq!(read_meter_rows(b"").unwrap().len(), 0);
}

#[test]
fn extra_columns_are_ignored_and_order_is_free() {
    let rows = read_meter_rows(b"unit,comment,name\nkWh,x,Power\n").unwrap();
    assert_eq!(rows.len(), 1);
    assert_eq!(rows[0].name, "Power");
    assert_eq!(rows[0].unit, "kWh");
}

#[test]
fn repeated_column_is_refused() {
    match read_meter_rows(b"name,name,unit\na,b,kWh\n") {
        Err(ImportError::RepeatedColumn(column)) => assert_eq!(column, "name"),
        other => panic!("unexpected result {other:?}"),
    }
}

#[test]
fn invalid_fields_name_row_and_column() {
    let csv_data = "meter_name,meter_number,initial_reading,initial_reading_date,installed_at
M,N-1,1.5,2026-01-01,2026-01-01
M,N-2,abc,2026-01-01,2026-01-01
";
    match read_meter_instance_rows(csv_data.as_bytes()) {
        Err(ImportError::InvalidNumber { row, column }) => {
            assert_eq!(row, 1);
            assert_eq!(column, "initial_reading");
        }
        other => panic!("unexpected result {other:?}"),
    }
    let csv_data = "meter_name,meter_number,initial_reading,initial_reading_date,installed_at
M,N-1,1.5,2026-02-30,2026-01-01
";
    match read_meter_instance_rows(csv_data.as_bytes()) {
        Err(ImportError::InvalidDate { row, column }) => {
            assert_eq!(row, 0);
            assert_eq!(column, "initial_reading_date");
        }
        other => panic!("unexpected result {other:?}"),
    }
    let csv_data = "meter_name,meter_number,initial_reading,initial_reading_date,installed_at,removed_at
M,N-1,1.5,2026-01-01,2026-01-01,soon
";
    match read_meter_instance_rows(csv_data.as_bytes()) {
        Err(ImportError::InvalidDate { row, column }) => {
            assert_eq!(row, 0);
            assert_eq!(column, "removed_at");
        }
        other => panic!("unexpected result {other:?}"),
    }
}

#[test]
fn missing_instance_column_is_named() {
    let csv_data = "meter_name,meter_number,initial_reading,installed_at\nM,N,1,2026-01-01\n";
    match read_meter_instance_rows(csv_data.as_bytes()) {
        Err(ImportError::MissingColumn(column)) => assert_eq!(column, "initial_reading_date"),
        other => panic!("unexpected result {other:?}"),
    }
}

#[test]
fn header_that_is_not_text_means_rows_are_read_by_position() {
    let rows = read_meter_rows(b"\xff\xfe,unit\nPower,kWh,extra\n");
    assert!(rows.is_err(), "records must still match the header's length");
    let rows = read_meter_rows(b"\xff\xfe,unit,x\nPower,kWh,extra\n").unwrap();
    assert_eq!(rows.len(), 1);
    assert_eq!(rows[0].name, "Power");
    assert_eq!(rows[0].unit, "kWh");
    match read_meter_rows(b"\xff\nPower\n") {
        Err(ImportError::ShortRow { row }) => assert_eq!(row, 0),
        other => panic!("unexpected result {other:?}"),
    }
}
