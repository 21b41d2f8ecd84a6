//! Request construction and signing for an exchange's REST interface.

pub mod clock;
pub mod crypto;
pub mod encoding;
pub mod exchanges;
pub mod header;
pub mod orders;
pub mod payload;
pub mod request;
pub mod responses;
pub mod signing;
pub mod system_server;
pub mod text;
pub mod two_factor;
pub mod validation;
