//! The account logic of a small banking web service: registration, login,
//! password reset and the registration of users with an open-banking
//! provider.

pub mod errors;
pub mod ids;
pub mod db;
pub mod yapily;
pub mod mail;
pub mod routes;
pub mod config;
