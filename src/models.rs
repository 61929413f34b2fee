//! Request bodies and error reporting of the rental records service.
use vstd::prelude::*;

verus! {

pub const STATUS_NOT_FOUND: u16 = 404;

pub const STATUS_INTERNAL_ERROR: u16 = 500;

pub const NOT_FOUND_MESSAGE: &'static str = "Not found";

/// Fields of a new or updated rental location.
pub struct CreateLocation {
    pub name: String,
    pub city: String,
    pub address: String,
    pub phone: Option<String>,
}

/// An error reply: its status and message.
pub struct AppError(pub u16, pub String);

impl AppError {
    /// Maps a database failure: a missing row is "not found", anything else
    /// an internal error carrying the database's text.
    pub fn from_db_error(row_not_found: bool, message: String) -> (r: AppError)
        ensures
            row_not_found ==> r.0 == STATUS_NOT_FOUND && r.1@ == NOT_FOUND_MESSAGE@,
            !row_not_found ==> r.0 == STATUS_INTERNAL_ERROR && r.1@ == message@,
    {
        if row_not_found {
            AppError(STATUS_NOT_FOUND, NOT_FOUND_MESSAGE.to_owned())
        } else {
            AppError(STATUS_INTERNAL_ERROR, message)
        }
    }
}

fn text_or(value: Option<String>, fallback: &str) -> (r: String)
    ensures
        value matches Some(v) ==> r@ == v@,
        value is None ==> r@ == fallback@,
{
    match value {
        Some(v) => v,
        None => fallback.to_owned(),
    }
}

pub const VEHICLE_DEFAULT_STATUS: &'static str = "available";

pub const RESERVATION_DEFAULT_STATUS: &'static str = "confirmed";

pub const PAYMENT_DEFAULT_STATUS: &'static str = "completed";

/// Status stored for a vehicle when none is given.
pub fn vehicle_status(status: Option<String>) -> (r: String)
    ensures
        status matches Some(s) ==> r@ == s@,
        status is None ==> r@ == VEHICLE_DEFAULT_STATUS@,
{
    text_or(status, VEHICLE_DEFAULT_STATUS)
}

/// Mileage stored for a vehicle when none is given.
pub fn vehicle_mileage(mileage: Option<i32>) -> (r: i32)
    ensures
        r == (match mileage {
            Some(m) => m,
            None => 0,
        }),
{
    match mileage {
        Some(m) => m,
        None => 0,
    }
}

/// Status stored for a reservation when none is given.
pub fn reservation_status(status: Option<String>) -> (r: String)
    ensures
        status matches Some(s) ==> r@ == s@,
        status is None ==> r@ == RESERVATION_DEFAULT_STATUS@,
{
    text_or(status, RESERVATION_DEFAULT_STATUS)
}

/// Status stored for a payment when none is given.
pub fn payment_status(status: Option<String>) -> (r: String)
    ensures
        status matches Some(s) ==> r@ == s@,
        status is None ==> r@ == PAYMENT_DEFAULT_STATUS@,
{
    text_or(status, PAYMENT_DEFAULT_STATUS)
}

/// Completion flag stored for a maintenance record when none is given.
pub fn maintenance_completed(completed: Option<bool>) -> (r: bool)
    ensures
        r == (match completed {
            Some(c) => c,
            None => true,
        }),
{
    match completed {
        Some(c) => c,
        None => true,
    }
}

/// A count read from an aggregate query; a missing one counts as zero.
pub fn count_or_zero(val: Option<i64>) -> (r: i64)
    ensures
        r == (match val {
            Some(v) => v,
            None => 0,
        }),
{
    match val {
        Some(v) => v,
        None => 0,
    }
}

} // verus!
