//! Who a request comes from.
pub mod admin;
pub mod apikey;
