//! DKIM signature verification and the fixed-layout public record that
//! commits to its inputs and outcome.
pub mod crypto;
pub mod dkim;
pub mod record;

pub use dkim::{verify_detailed, verify_dkim_signature, Rejection};
pub use record::{public_values, PublicRecord};
