use metervalues::error::{AppError, DbFailure};
use metervalues::exchange::{ExchangeAction, ExchangeEvent, ExchangeMeterInstance, MeterExchange};
use metervalues::models::MeterInstance;
use metervalues::values::{Date, Decimal};

fn date(year: i32, month: u32, day: u32) -> Date {
    Date { year, month, day }
}

fn request(meter_number: &str) -> ExchangeMeterInstance {
    ExchangeMeterInstance {
        removed_at: date(2026, 8, 20),
        meter_number: meter_number.to_string(),
        initial_reading: Decimal { mantissa: 0, scale: 3 },
        initial_reading_date: date(2026, 8, 20),
        installed_at: date(2026, 8, 20),
    }
}

#[test]
fn exchange_meter_instance() {
    let old_meter_instance_id = 31;
    let meter_id = 4;
    let (mut exchange, first) =
        MeterExchange::exchange_meter_instance(old_meter_instance_id, request("TEST-EXCHANGE-NEW"));
    assert!(matches!(first, ExchangeAction::Begin));
    match exchange.step(ExchangeEvent::Begun) {
        ExchangeAction::RemoveOld { instance_id, removed_at } => {
            assert_eq!(instance_id, old_meter_instance_id);
            assert_eq!(removed_at, date(2026, 8, 20));
        }
        other => panic!("unexpected action {other:?}"),
    }
    let replacement = match exchange.step(ExchangeEvent::Removed(Some(meter_id))) {
        ExchangeAction::Insert(new_instance) => {
            assert_eq!(new_instance.meter_id, meter_id);
            assert_eq!(new_instance.meter_number, "TEST-EXCHANGE-NEW");
            assert_eq!(new_instance.installed_at, date(2026, 8, 20));
            assert!(new_instance.removed_at.is_none());
            MeterInstance {
                id: 32,
                meter_id: new_instance.meter_id,
                meter_number: new_instance.meter_number,
                initial_reading: new_instance.initial_reading,
                initial_reading_date: new_instance.initial_reading_date,
                installed_at: new_instance.installed_at,
                removed_at: None,
            }
        }
        other => panic!("unexpected action {other:?}"),
    };
    assert!(matches!(exchange.step(ExchangeEvent::Inserted(replacement)), ExchangeAction::Commit));
    match exchange.step(ExchangeEvent::Committed) {
        ExchangeAction::Respond(status, instance) => {
            assert_eq!(status, 201);
            assert_eq!(instance.meter_id, meter_id);
            assert_eq!(instance.meter_number, "TEST-EXCHANGE-NEW");
        }
        other => panic!("unexpected action {other:?}"),
    }
}

#[test]
fn failed_meter_exchange_keeps_old_instance_active() {
    let (mut exchange, _) = MeterExchange::exchange_meter_instance(7, request("TEST-EXCHANGE-DUPLICATE"));
    assert!(matches!(exchange.step(ExchangeEvent::Begun), ExchangeAction::RemoveOld { .. }));
    assert!(matches!(exchange.step(ExchangeEvent::Removed(Some(3))), ExchangeAction::Insert(_)));
    let duplicate = DbFailure {
        code: Some("23505".to_string()),
        constraint: Some("meter_instances_meter_number_key".to_string()),
        message: "duplicate key".to_string(),
    };
    match exchange.step(ExchangeEvent::Failed(duplicate)) {
        ExchangeAction::Rollback(error) => {
            assert!(matches!(error, AppError::Conflict));
            assert_eq!(error.status_code(), 409);
            assert_eq!(error.error_code(), "conflict");
        }
        other => panic!("unexpected action {other:?}"),
    }
    assert!(!exchange.accepts(&ExchangeEvent::Committed));
}

#[test]
fn exchange_of_unknown_instance_is_not_found() {
    let (mut exchange, _) = MeterExchange::exchange_meter_instance(999999, request("X"));
    assert!(matches!(exchange.step(ExchangeEvent::Begun), ExchangeAction::RemoveOld { .. }));
    match exchange.step(ExchangeEvent::Removed(None)) {
        ExchangeAction::Rollback(error) => assert_eq!(error.status_code(), 404),
        other => panic!("unexpected action {other:?}"),
    }
}

#[test]
fn exchange_accepts_only_answers_to_its_last_action() {
    let (exchange, _) = MeterExchange::exchange_meter_instance(1, request("X"));
    assert!(exchange.accepts(&ExchangeEvent::Begun));
    assert!(!exchange.accepts(&ExchangeEvent::Committed));
    assert!(!exchange.accepts(&ExchangeEvent::Removed(Some(1))));
}
