//! Permission bitmasks and the authorization decisions built on them.

pub mod apps;
pub mod auth;
pub mod email_verify;
pub mod error;
pub mod guards;
pub mod password;
pub mod permission_check;
pub mod permissions;
pub mod report;
pub mod search;
pub mod text;
pub mod timestamps;
