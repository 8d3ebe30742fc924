//! Data model for a client binding to an education-platform REST API.
//!
//! Every type mirrors a JSON resource exchanged with the remote service:
//! courses, coursework materials, drive attachments, grading settings, and
//! a custom owner identifier that can be an email, a numeric id, or the
//! literal current-user alias. The wire format is modelled by [`json::Json`],
//! and every schema type comes with verified encode and decode routines.

use vstd::prelude::*;

pub mod courses;
pub mod error;
pub mod json;
pub mod model;
pub mod time;

verus! {

/// Version of the remote API that this model mirrors.
pub const API_VERSION: u8 = 1;

/// Base URL of the remote service, for a transport layer to consume; it
/// carries no behaviour here.
pub const SERVICE_ENDPOINT: &'static str = "https://classroom.googleapis.com";

/// Placeholder for a future transport client; carries no behaviour here.
pub struct Client {}

} // verus!
