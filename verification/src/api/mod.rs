//! The requests and responses of the service, and what makes a request
//! acceptable.

pub mod account;
pub mod auth;
pub mod cdn;
pub mod downloads;
pub mod filesystem;
pub mod general;
pub mod uploads;
