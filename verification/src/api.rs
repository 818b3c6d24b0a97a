//! What the HTTP handlers decide once the database has answered: the
//! status and body of each response. The handlers themselves (routing,
//! JSON, SQL) stand around the library and hand it the database's answers.

use vstd::prelude::*;
use crate::error::{is_conflict, spec_from_failure, spec_status, AppError, DbFailure};
use crate::models::{CreateMeterInstance, Meter, MeterInstance, NewMeterInstance, NewMeterInstanceView};
use crate::values::{Date, Decimal};

verus! {

/// `201 Created`.
pub open spec fn created() -> u16 {
    201
}

/// `400 Bad Request`.
pub open spec fn bad_request() -> u16 {
    400
}

/// The body of a request that records a reading.
#[derive(Clone, Copy, Debug, PartialEq, Eq, Structural)]
pub struct CreateReading {
    pub reading_date: Date,
    pub value: Decimal,
}

/// A stored reading of a physical meter.
#[derive(Clone, Copy, Debug, PartialEq, Eq, Structural)]
pub struct ReadingResponse {
    pub id: i64,
    pub meter_instance_id: i64,
    pub reading_date: Date,
    pub value: Decimal,
}

/// The result of a database call as the API reports it: the value, or the
/// API error its failure becomes.
pub open spec fn spec_from_db<T>(r: Result<T, DbFailure>) -> Result<T, AppError> {
    match r {
        Ok(v) => Ok(v),
        Err(f) => Err(spec_from_failure(f)),
    }
}

/// Reports the result of a database call.
pub fn from_db<T>(r: Result<T, DbFailure>) -> (res: Result<T, AppError>)
    ensures
        res == spec_from_db(r),
{
    match r {
        Ok(v) => Ok(v),
        Err(f) => Err(AppError::from(f)),
    }
}

/// A lookup of one record: the record, `NotFound` where there is none, or
/// the error the failure becomes.
pub open spec fn spec_found<T>(r: Result<Option<T>, DbFailure>) -> Result<T, AppError> {
    match r {
        Ok(Some(v)) => Ok(v),
        Ok(None) => Err(AppError::NotFound),
        Err(f) => Err(spec_from_failure(f)),
    }
}

/// Reports a lookup of one record.
pub fn found<T>(r: Result<Option<T>, DbFailure>) -> (res: Result<T, AppError>)
    ensures
        res == spec_found(r),
{
    match r {
        Ok(Some(v)) => Ok(v),
        Ok(None) => Err(AppError::NotFound),
        Err(f) => Err(AppError::from(f)),
    }
}

/// A creation: `201` with the created record, or the error the failure
/// becomes.
pub open spec fn spec_created<T>(r: Result<T, DbFailure>) -> Result<(u16, T), AppError> {
    match r {
        Ok(v) => Ok((created(), v)),
        Err(f) => Err(spec_from_failure(f)),
    }
}

/// Reports a creation.
pub fn created_response<T>(r: Result<T, DbFailure>) -> (res: Result<(u16, T), AppError>)
    ensures
        res == spec_created(r),
{
    match r {
        Ok(v) => Ok((201, v)),
        Err(f) => Err(AppError::from(f)),
    }
}

/// `GET /api/meters`: every meter, as the query listed them (by id).
pub fn get_meters(meters: Result<Vec<Meter>, DbFailure>) -> (res: Result<Vec<Meter>, AppError>)
    ensures
        res == spec_from_db(meters),
{
    from_db(meters)
}

/// `GET /api/meters/{id}`: the meter, or `NotFound`.
pub fn get_meter(meter: Result<Option<Meter>, DbFailure>) -> (res: Result<Meter, AppError>)
    ensures
        res == spec_found(meter),
{
    found(meter)
}

/// `POST /api/meters`: `201` with the new meter.
pub fn create_meter(inserted: Result<Meter, DbFailure>) -> (res: Result<(u16, Meter), AppError>)
    ensures
        res == spec_created(inserted),
{
    created_response(inserted)
}

/// `GET /api/meters/{meter_id}/instances`: the meter's physical meters, as
/// the query listed them (by installation date).
pub fn get_meter_instances(instances: Result<Vec<MeterInstance>, DbFailure>) -> (res: Result<Vec<MeterInstance>, AppError>)
    ensures
        res == spec_from_db(instances),
{
    from_db(instances)
}

/// What installing a physical meter under meter `meter_id` stores, once the
/// database said whether that meter exists: the new instance where it does,
/// `NotFound` where it does not (and nothing is inserted), or the error the
/// failure becomes.
pub open spec fn spec_instance_to_insert(
    meter_id: i64,
    payload: CreateMeterInstance,
    meter_exists: Result<bool, DbFailure>,
) -> Result<NewMeterInstanceView, AppError> {
    match meter_exists {
        Ok(true) => Ok(payload.spec_for_meter(meter_id)),
        Ok(false) => Err(AppError::NotFound),
        Err(f) => Err(spec_from_failure(f)),
    }
}

/// `POST /api/meters/{meter_id}/instances`, first step: given whether the
/// meter exists, the instance to insert.
pub fn create_meter_instance(
    meter_id: i64,
    payload: CreateMeterInstance,
    meter_exists: Result<bool, DbFailure>,
) -> (res: Result<NewMeterInstance, AppError>)
    ensures
        match (res, spec_instance_to_insert(meter_id, payload, meter_exists)) {
            (Ok(n), Ok(v)) => n@ == v,
            (Err(e), Err(f)) => e == f,
            _ => false,
        },
{
    match meter_exists {
        Ok(true) => Ok(payload.for_meter(meter_id)),
        Ok(false) => Err(AppError::NotFound),
        Err(f) => Err(AppError::from(f)),
    }
}

/// Where meter `meter_id` exists, installing a physical meter under it
/// inserts the request's meter unchanged (number, initial reading, initial
/// reading date, installation date), under that meter and active; where it
/// does not, nothing is inserted and the answer is `NotFound`.
pub proof fn lemma_created_instance_carries_the_request(meter_id: i64, payload: CreateMeterInstance)
    ensures
        spec_instance_to_insert(meter_id, payload, Ok(true)) matches Ok(n)
            && n.meter_id == meter_id
            && n.meter_number == payload.meter_number@
            && n.initial_reading == payload.initial_reading
            && n.initial_reading_date == payload.initial_reading_date
            && n.installed_at == payload.installed_at
            && n.removed_at is None,
        spec_instance_to_insert(meter_id, payload, Ok(false)) == Err::<NewMeterInstanceView, AppError>(AppError::NotFound),
{
}

/// `POST /api/meters/{meter_id}/instances`, second step: `201` with the
/// inserted instance; a second active instance for the meter is a conflict.
pub fn meter_instance_created(inserted: Result<MeterInstance, DbFailure>) -> (res: Result<(u16, MeterInstance), AppError>)
    ensures
        res == spec_created(inserted),
{
    created_response(inserted)
}

/// `PATCH /api/meter-instances/{id}`: the instance with its removal date
/// set, or `NotFound` where no instance has that id.
pub fn remove_meter_instance(updated: Result<Option<MeterInstance>, DbFailure>) -> (res: Result<MeterInstance, AppError>)
    ensures
        res == spec_found(updated),
{
    found(updated)
}

/// `POST /api/meter-instances/{id}/readings`: `201` with the stored reading;
/// a reading for a meter instance that does not exist is `NotFound`.
pub fn create_reading(inserted: Result<Option<ReadingResponse>, DbFailure>) -> (res: Result<(u16, ReadingResponse), AppError>)
    ensures
        res == match spec_found(inserted) {
            Ok(r) => Ok::<(u16, ReadingResponse), AppError>((created(), r)),
            Err(e) => Err(e),
        },
{
    match found(inserted) {
        Ok(r) => Ok((201, r)),
        Err(e) => Err(e),
    }
}

/// `GET /api/meter-instances/{id}/readings`: the readings, as the query
/// listed them (by reading date).
pub fn get_readings(readings: Result<Vec<ReadingResponse>, DbFailure>) -> (res: Result<Vec<ReadingResponse>, AppError>)
    ensures
        res == spec_from_db(readings),
{
    from_db(readings)
}

/// The status of a CSV import: `201` where it was stored, `400` where it was
/// refused, whatever the reason.
pub open spec fn spec_import_status<T, E>(outcome: Result<T, E>) -> Result<u16, u16> {
    match outcome {
        Ok(_) => Ok(created()),
        Err(_) => Err(bad_request()),
    }
}

/// `POST /api/import/...`: the status that answers an import. The same
/// answer serves the meter, meter-instance and reading imports alike.
pub fn import_meters<T, E>(outcome: &Result<T, E>) -> (res: Result<u16, u16>)
    ensures
        res == spec_import_status(*outcome),
{
    match outcome {
        Ok(_) => Ok(201),
        Err(_) => Err(400),
    }
}

/// What the API answers for what the database gave: a record it gave is
/// answered unchanged (with `201` where it was created), a lookup that found
/// nothing is `404`, and a failure is `409` where it is a conflict and `500`
/// otherwise, whichever handler met it.
pub proof fn lemma_database_results_are_answered<T>(v: T, f: DbFailure)
    ensures
        spec_from_db(Ok::<T, DbFailure>(v)) == Ok::<T, AppError>(v),
        spec_found(Ok::<Option<T>, DbFailure>(Some(v))) == Ok::<T, AppError>(v),
        spec_found(Ok::<Option<T>, DbFailure>(None)) matches Err(e) && spec_status(e) == 404,
        spec_created(Ok::<T, DbFailure>(v)) == Ok::<(u16, T), AppError>((201u16, v)),
        spec_from_db(Err::<T, DbFailure>(f)) matches Err(e)
            && spec_status(e) == (if is_conflict(f) { 409u16 } else { 500u16 }),
        spec_found(Err::<Option<T>, DbFailure>(f)) matches Err(e)
            && spec_status(e) == (if is_conflict(f) { 409u16 } else { 500u16 }),
        spec_created(Err::<T, DbFailure>(f)) matches Err(e)
            && spec_status(e) == (if is_conflict(f) { 409u16 } else { 500u16 }),
{
}

/// An import is answered `201` where its file was stored and `400` where
/// it was refused, for any outcome.
pub proof fn lemma_import_answers<T, E>(v: T, e: E)
    ensures
        spec_import_status(Ok::<T, E>(v)) == Ok::<u16, u16>(201u16),
        spec_import_status(Err::<T, E>(e)) == Err::<u16, u16>(400u16),
{
}

} // verus!
