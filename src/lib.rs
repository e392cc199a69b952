//! Client library for the behindthename.com name-lookup service: request
//! builders, a multi-window local rate budget, and a classifier for the
//! service's JSON replies.

pub mod text;
pub mod gender;
pub mod quota;
pub mod limiter;
pub mod request;
pub mod json;
pub mod response;
pub mod session;
