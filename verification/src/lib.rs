//! Verified core of a multi-tenant real-estate CRM backend.
use vstd::prelude::*;

pub mod appointments;
pub mod auth;
pub mod contracts;
pub mod dashboard;
pub mod dates;
pub mod documents;
pub mod financials;
pub mod http;
pub mod ids;
pub mod leads;
pub mod money;
pub mod payments;
pub mod properties;
pub mod public;
pub mod reports;
pub mod signatures;
pub mod superadmin;
pub mod system;
pub mod text;

verus! {

} // verus!
