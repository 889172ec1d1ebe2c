//! Request-handling decisions of the wastebin paste server: which path a paste
//! may be read or deleted under, where a request is redirected, who counts as the
//! administrator, how the admin update form is read, and which modules of a QR
//! code for a paste's address are dark.
use vstd::prelude::*;

pub mod auth;
pub mod errors;
pub mod handlers;
pub mod text;

verus! {

} // verus!
