//! Issuing, validating and enforcing short-lived bearer tokens and
//! session-carried role lists.
pub mod error;
pub mod text;
pub mod roles;
pub mod jwt;
pub mod cookie;
pub mod guard;
pub mod survey;
pub mod dtos;
