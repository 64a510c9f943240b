//! The calendar types that tasks and comments carry.
//!
//! Dates and moments come from the store and go back to it unchanged: no
//! function of this library reads inside one, so chrono's own types stand in
//! the records as opaque values.
use vstd::prelude::*;

verus! {

/// chrono's `NaiveDate`: the deadline of a task.
#[verifier::external_type_specification]
#[verifier::external_body]
pub struct ExNaiveDate(chrono::NaiveDate);

/// chrono's `NaiveDateTime`: the moment a task or a comment was created.
#[verifier::external_type_specification]
#[verifier::external_body]
pub struct ExNaiveDateTime(chrono::NaiveDateTime);

} // verus!
