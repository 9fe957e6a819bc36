//! Account and session core: signup and login form validation, credential
//! checks against a stored user record, password hashing and session issuance.

pub mod errors;
pub mod hasher;
pub mod clock;
pub mod models;
pub mod users;
pub mod forms;
pub mod auth;
pub mod session;
