//! A user record as read from the store.
use vstd::prelude::*;

verus! {

/// A birthday is carried as chrono's date-time without a time zone; the
/// library never looks inside it.
#[verifier::external_type_specification]
#[verifier::external_body]
pub struct ExNaiveDateTime(chrono::NaiveDateTime);

/// One row of the `users` table.
#[derive(Debug)]
pub struct UserModel {
    pub uid: String,
    pub birthday: chrono::NaiveDateTime,
    pub sex: String,
    pub name: String,
}

} // verus!
