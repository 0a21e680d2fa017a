//! Authentication core of a multi-user notes service: signed, time-bound
//! bearer tokens, their validation policy, and the guard that admits a request
//! only after its bearer token has been validated.

pub mod auth;
pub mod bearer;
pub mod clock;
pub mod errors;
pub mod jwt;
pub mod laws;
