//! The errors of the HTTP API and the responses that answer them.

use vstd::prelude::*;

verus! {

/// A database failure as the SQL driver reports it: the SQLSTATE code and
/// the name of the violated constraint where the server gave them, and a
/// description for the log.
#[derive(Clone, Debug, PartialEq, Eq)]
pub struct DbFailure {
    pub code: Option<String>,
    pub constraint: Option<String>,
    pub message: String,
}

/// Why a request failed.
#[derive(Debug)]
pub enum AppError {
    /// The database failed; the request is answered as an internal error.
    Database(DbFailure),
    /// The addressed meter or meter instance does not exist.
    NotFound,
    /// The request would give a logical meter a second active physical
    /// meter, or reuse a meter number.
    Conflict,
}

/// The SQLSTATE code of a unique violation.
pub open spec fn unique_violation_code() -> Seq<char> {
    "23505"@
}

/// The unique index that lets a logical meter have one active physical
/// meter at a time.
pub open spec fn one_active_meter_constraint() -> Seq<char> {
    "idx_one_active_meter_per_meter"@
}

/// The uniqueness constraint on the number of a physical meter, under the
/// name PostgreSQL gives a `UNIQUE` column constraint on
/// `meter_instances.meter_number`.
pub open spec fn meter_number_constraint() -> Seq<char> {
    "meter_instances_meter_number_key"@
}

/// The failure breaks a uniqueness rule: its SQLSTATE is `23505`.
pub open spec fn is_unique_violation(failure: DbFailure) -> bool {
    match failure.code {
        Some(c) => c@ == unique_violation_code(),
        None => false,
    }
}

/// The failure names one of the constraints whose violation the API
/// answers as a conflict.
pub open spec fn names_conflict_constraint(failure: DbFailure) -> bool {
    match failure.constraint {
        Some(c) => c@ == one_active_meter_constraint() || c@ == meter_number_constraint(),
        None => false,
    }
}

/// The failure is a conflict: a unique violation of the one-active-meter
/// index or of the meter-number uniqueness.
pub open spec fn is_conflict(failure: DbFailure) -> bool {
    is_unique_violation(failure) && names_conflict_constraint(failure)
}

/// The API error that a database failure becomes.
pub open spec fn spec_from_failure(failure: DbFailure) -> AppError {
    if is_conflict(failure) {
        AppError::Conflict
    } else {
        AppError::Database(failure)
    }
}

/// The HTTP status that answers an error.
pub open spec fn spec_status(e: AppError) -> u16 {
    match e {
        AppError::Database(_) => 500,
        AppError::NotFound => 404,
        AppError::Conflict => 409,
    }
}

/// The `error` member of the JSON body that answers an error.
pub open spec fn spec_error_code(e: AppError) -> Seq<char> {
    match e {
        AppError::Database(_) => "internal_server_error"@,
        AppError::NotFound => "not_found"@,
        AppError::Conflict => "conflict"@,
    }
}

fn is_unique_violation_code(code: &String) -> (res: bool)
    ensures
        res == (code@ == unique_violation_code()),
{
    let expected = String::from_str("23505");
    *code == expected
}

fn is_conflict_constraint(constraint: &String) -> (res: bool)
    ensures
        res == (constraint@ == one_active_meter_constraint() || constraint@
            == meter_number_constraint()),
{
    let one_active = String::from_str("idx_one_active_meter_per_meter");
    let meter_number = String::from_str("meter_instances_meter_number_key");
    *constraint == one_active || *constraint == meter_number
}

impl AppError {
    /// The API error that a database failure becomes: a unique violation
    /// of the one-active-meter index or of the meter-number uniqueness is a
    /// conflict; every other failure, other unique violations included, is
    /// a database error.
    pub fn from(failure: DbFailure) -> (res: AppError)
        ensures
            res == spec_from_failure(failure),
    {
        let unique = match &failure.code {
            Some(c) => is_unique_violation_code(c),
            None => false,
        };
        let named = match &failure.constraint {
            Some(c) => is_conflict_constraint(c),
            None => false,
        };
        let conflict = unique && named;
        if conflict {
            AppError::Conflict
        } else {
            AppError::Database(failure)
        }
    }

    /// The HTTP status that answers this error.
    pub fn status_code(&self) -> (res: u16)
        ensures
            res == spec_status(*self),
    {
        match self {
            AppError::Database(_) => 500,
            AppError::NotFound => 404,
            AppError::Conflict => 409,
        }
    }

    /// The `error` member of the JSON body that answers this error.
    pub fn error_code(&self) -> (res: &'static str)
        ensures
            res@ == spec_error_code(*self),
    {
        match self {
            AppError::Database(_) => "internal_server_error",
            AppError::NotFound => "not_found",
            AppError::Conflict => "conflict",
        }
    }
}

/// A second active meter for a logical meter, or a taken meter number, is
/// answered with status 409 and the error `conflict`; every other database
/// failure (other unique violations included) with status 500 and the error
/// `internal_server_error`.
pub proof fn lemma_database_failures_are_answered(failure: DbFailure)
    ensures
        is_conflict(failure) ==> spec_status(spec_from_failure(failure)) == 409
            && spec_error_code(spec_from_failure(failure)) == "conflict"@,
        !is_conflict(failure) ==> spec_status(spec_from_failure(failure)) == 500
            && spec_error_code(spec_from_failure(failure)) == "internal_server_error"@
            && spec_from_failure(failure) == AppError::Database(failure),
{
}

} // verus!
