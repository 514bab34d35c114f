//! Account provisioning and credential management for a multi-tenant service.
//!
//! The crate holds the decisions of two flows, registration of an account and
//! change of a password, as state machines that a driver runs against a
//! storage backend, together with the password hasher, the table that maps
//! storage constraint violations to errors, and an in-memory model of the two
//! stores against which both flows are proved.

pub mod constraint;
pub mod error;
pub mod hasher;
pub mod laws;
pub mod model;
pub mod notify;
pub mod password;
pub mod protocol;
pub mod registrar;
pub mod session;
pub mod store;
pub mod text;

pub use crate::notify::send_email_if_possible;
pub use crate::password::set_password;
pub use crate::registrar::create_user;
