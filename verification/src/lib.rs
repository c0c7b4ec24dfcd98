//! Payment initiation: validation of a payment request, the pending record
//! that is built from it, and the rules by which one request is answered.

pub mod amount;
pub mod error;
pub mod handler;
pub mod ident;
pub mod method;
pub mod record;
pub mod reply;
pub mod request;
pub mod store;
