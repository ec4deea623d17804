//! Loopback OAuth 2.0 sign-in for a desktop application, and the device
//! summary shown beside it.

pub mod authorize;
pub mod callback;
pub mod device;
pub mod encoding;
pub mod error;
pub mod flow;
pub mod names;
pub mod pkce;
pub mod provider;
pub mod redirect;
pub mod text;
pub mod token;
