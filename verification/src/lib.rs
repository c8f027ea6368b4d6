//! Core of an HTTP echo test service.
//!
//! The service returns a caller-chosen status code after a caller-chosen
//! delay, and decorates every response with diagnostic headers (request id,
//! response time, client address, client user agent). This crate holds the
//! verified logic of that service: resolving the overlapping optional query
//! parameters into an effective status and a clamped delay, selecting and
//! validating the diagnostic header values, and composing the final
//! response for each route of the service. The network front end around it
//! only extracts plain values from the transport, performs the resolved
//! suspension, and ships the composed response back.

pub mod decimal;
pub mod echo_request;
pub mod headers;
pub mod request_id;
pub mod resolve;
pub mod response;
