//! Request/response core of a client for a payment service's REST API.
//!
//! The library builds each request as plain data (method, address, headers,
//! form body), and classifies each response into a typed value or an error.
//! Sending the request over the network is left to the caller.

pub mod headers;
pub mod client;
pub mod error;
pub mod form;
