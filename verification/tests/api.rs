use metervalues::api;
use metervalues::api::{
    get_meter, get_meter_instances, get_meters, get_readings, import_meters,
    meter_instance_created, CreateReading, ReadingResponse,
};
use metervalues::error::{AppError, DbFailure};
use metervalues::models::{CreateMeterInstance, Meter, MeterInstance, RemoveMeterInstance};
use metervalues::values::{Date, Decimal};

fn date(year: i32, month: u32, day: u32) -> Date {
    Date { year, month, day }
}

fn unique_violation(constraint: &str) -> DbFailure {
    DbFailure {
        code: Some("23505".to_string()),
        constraint: Some(constraint.to_string()),
        message: "duplicate key value violates unique constraint".to_string(),
    }
}

fn other_failure() -> DbFailure {
    DbFailure {
        code: Some("08006".to_string()),
        constraint: None,
        message: "connection failure".to_string(),
    }
}

fn instance(id: i64, meter_id: i64, meter_number: &str) -> MeterInstance {
    MeterInstance {
        id,
        meter_id,
        meter_number: meter_number.to_string(),
        initial_reading: Decimal { mantissa: 15_234_000, scale: 3 },
        initial_reading_date: date(2026, 8, 15),
        installed_at: date(2026, 8, 15),
        removed_at: None,
    }
}

fn request(meter_number: &str) -> CreateMeterInstance {
    CreateMeterInstance {
        meter_number: meter_number.to_string(),
        initial_reading: Decimal { mantissa: 15_234_000, scale: 3 },
        initial_reading_date: date(2026, 8, 15),
        installed_at: date(2026, 8, 15),
    }
}

#[test]
fn get_meters_returns_all_meters() {
    let meters = vec![
        Meter { id: 1, name: "Electricity".to_string(), unit: "kWh".to_string() },
        Meter { id: 2, name: "Water".to_string(), unit: "m³".to_string() },
    ];
    let listed = get_meters(Ok(meters.clone())).unwrap();
    assert_eq!(listed, meters);
    let error = get_meters(Err(other_failure())).unwrap_err();
    assert_eq!(error.status_code(), 500);
    assert_eq!(error.error_code(), "internal_server_error");
}

#[test]
fn create_meter_instance() {
    let meter_id = 17;
    let new_instance = api::create_meter_instance(meter_id, request("TEST-1001-17"), Ok(true)).unwrap();
    assert_eq!(new_instance.meter_id, meter_id);
    assert_eq!(new_instance.meter_number, "TEST-1001-17");
    assert_eq!(new_instance.initial_reading, Decimal { mantissa: 15_234_000, scale: 3 });
    assert_eq!(new_instance.installed_at, date(2026, 8, 15));
    assert_eq!(new_instance.removed_at, None);

    let (status, created) = meter_instance_created(Ok(instance(3, meter_id, "TEST-1001-17"))).unwrap();
    assert_eq!(status, 201);
    assert_eq!(created.meter_id, meter_id);
    assert!(created.removed_at.is_none());
}

#[test]
fn create_meter_instance_for_nonexistent_meter_returns_not_found() {
    let error = api::create_meter_instance(999999, request("TEST-NOT-FOUND"), Ok(false)).unwrap_err();
    assert_eq!(error.status_code(), 404);
    assert_eq!(error.error_code(), "not_found");
}

#[test]
fn create_second_active_meter_instance_returns_conflict() {
    let error =
        meter_instance_created(Err(unique_violation("idx_one_active_meter_per_meter"))).unwrap_err();
    assert!(matches!(error, AppError::Conflict));
    assert_eq!(error.status_code(), 409);
    assert_eq!(error.error_code(), "conflict");
}

#[test]
fn get_meter_instances_returns_all_instances() {
    let mut first = instance(1, 4, "TEST-INSTANCE-1-4");
    first.removed_at = Some(date(2026, 6, 1));
    let second = instance(2, 4, "TEST-INSTANCE-2-4");
    let listed = get_meter_instances(Ok(vec![first.clone(), second.clone()])).unwrap();
    assert_eq!(listed.len(), 2);
    assert_eq!(listed[0].removed_at, Some(date(2026, 6, 1)));
    assert_eq!(listed[1].removed_at, None);
}

#[test]
fn create_reading() {
    let reading = ReadingResponse {
        id: 1,
        meter_instance_id: 8,
        reading_date: date(2026, 8, 19),
        value: Decimal { mantissa: 1_234_567, scale: 3 },
    };
    let (status, stored) = api::create_reading(Ok(Some(reading))).unwrap();
    assert_eq!(status, 201);
    assert_eq!(stored.meter_instance_id, 8);
    assert_eq!(stored.reading_date, date(2026, 8, 19));
    let body = CreateReading { reading_date: date(2026, 8, 19), value: stored.value };
    assert_eq!(body.value, Decimal { mantissa: 1_234_567, scale: 3 });
}

#[test]
fn create_reading_for_nonexistent_meter_instance_returns_not_found() {
    let error = api::create_reading(Ok(None)).unwrap_err();
    assert_eq!(error.status_code(), 404);
    assert_eq!(error.error_code(), "not_found");
}

#[test]
fn get_readings_returns_readings_in_listed_order() {
    let readings = vec![
        ReadingResponse {
            id: 2,
            meter_instance_id: 1,
            reading_date: date(2026, 8, 10),
            value: Decimal { mantissa: 100_000, scale: 3 },
        },
        ReadingResponse {
            id: 3,
            meter_instance_id: 1,
            reading_date: date(2026, 8, 15),
            value: Decimal { mantissa: 200_000, scale: 3 },
        },
    ];
    assert_eq!(get_readings(Ok(readings.clone())).unwrap(), readings);
}

#[test]
fn remove_meter_instance() {
    let mut removed = instance(12, 3, "TEST-REMOVE-1001");
    let body = RemoveMeterInstance { removed_at: date(2026, 8, 20) };
    removed.removed_at = Some(body.removed_at);
    let answered = api::remove_meter_instance(Ok(Some(removed))).unwrap();
    assert_eq!(answered.id, 12);
    assert_eq!(answered.removed_at, Some(date(2026, 8, 20)));
}

#[test]
fn remove_nonexistent_meter_instance_returns_not_found() {
    let error = api::remove_meter_instance(Ok(None)).unwrap_err();
    assert_eq!(error.status_code(), 404);
    assert_eq!(error.error_code(), "not_found");
}

#[test]
fn create_meter() {
    let meter = Meter { id: 9, name: "API Test Water".to_string(), unit: "m³".to_string() };
    let (status, created) = api::create_meter(Ok(meter)).unwrap();
    assert_eq!(status, 201);
    assert_eq!(created.name, "API Test Water");
    assert_eq!(created.unit, "m³");
}

#[test]
fn get_meter_by_id() {
    let meter = Meter { id: 5, name: "API Get Meter Test".to_string(), unit: "m³".to_string() };
    assert_eq!(get_meter(Ok(Some(meter.clone()))).unwrap(), meter);
}

#[test]
fn get_nonexistent_meter_returns_not_found() {
    assert_eq!(get_meter(Ok(None)).unwrap_err().status_code(), 404);
}

#[test]
fn import_meters_from_csv() {
    let outcome: Result<Vec<i64>, String> = Ok(vec![1, 2]);
    assert_eq!(import_meters(&outcome), Ok(201));
    let refused: Result<Vec<i64>, String> = Err("missing column".to_string());
    assert_eq!(import_meters(&refused), Err(400));
}

#[test]
fn conflicts_are_the_two_uniqueness_rules_and_other_failures_internal_errors() {
    let conflict = AppError::from(unique_violation("meter_instances_meter_number_key"));
    assert!(matches!(conflict, AppError::Conflict));
    let conflict = AppError::from(unique_violation("idx_one_active_meter_per_meter"));
    assert_eq!(conflict.status_code(), 409);
    let other_unique = unique_violation("meters_name_key");
    match AppError::from(other_unique.clone()) {
        AppError::Database(failure) => assert_eq!(failure, other_unique),
        other => panic!("unexpected error {other:?}"),
    }
    let no_constraint = DbFailure {
        code: Some("23505".to_string()),
        constraint: None,
        message: "duplicate key".to_string(),
    };
    assert_eq!(AppError::from(no_constraint).status_code(), 500);
    let other_code = DbFailure {
        code: Some("23503".to_string()),
        constraint: Some("idx_one_active_meter_per_meter".to_string()),
        message: "foreign key".to_string(),
    };
    assert_eq!(AppError::from(other_code).error_code(), "internal_server_error");
    match AppError::from(other_failure()) {
        AppError::Database(failure) => assert_eq!(failure, other_failure()),
        other => panic!("unexpected error {other:?}"),
    }
    let no_code = DbFailure { code: None, constraint: None, message: "row not found".to_string() };
    assert_eq!(AppError::from(no_code).status_code(), 500);
}
