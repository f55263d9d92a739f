//! A staged request builder: the builder's type records whether a URL, a
//! method and a body have been supplied, so that a request missing its URL or
//! method, or a GET request with a body, cannot be built at all.

pub mod builder;
pub mod laws;
pub mod model;
pub mod request;
