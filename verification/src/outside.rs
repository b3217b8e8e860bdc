//! Declarations of the outside types that the library carries.
use vstd::prelude::*;

verus! {

/// Declares `anyhow::Error` to Verus; it is carried, never inspected.
#[verifier::external_type_specification]
#[verifier::external_body]
pub struct ExAnyhowError(anyhow::Error);

/// Declares `sqlx::Error` to Verus; it is only printed.
#[verifier::external_type_specification]
#[verifier::external_body]
pub struct ExSqlxError(sqlx::Error);

} // verus!
