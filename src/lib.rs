pub mod auth;
pub mod certificate;
pub mod crypto;
pub mod deltas;
pub mod error;
pub mod files;
pub mod serial;
