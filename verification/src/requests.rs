//! Request builders: one type per API endpoint, each with a `build`
//! method whose contract pins the produced descriptor exactly.

pub mod auth;
pub mod keys;
pub mod messages;
