//! Addresses of the remote service.

pub mod url;
