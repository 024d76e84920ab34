//! Loopback capture of an OAuth2 redirect: the rules of a single-use callback
//! session, stated and proved.

pub mod callback;
pub mod json;
pub mod laws;
pub mod nonce;
pub mod ports;
pub mod registry;
pub mod reply;
pub mod session;
pub mod text;
pub mod url;
