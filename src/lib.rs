//! A typed client for a music-streaming service's HTTP API.
//!
//! The library decides what goes on the wire and what comes back: the login
//! request and the session it yields, the authenticated request for every
//! endpoint (headers, the mandatory `countryCode` query parameter, form
//! payloads, conditional-update tokens), and the classification of failed
//! responses. Sending the requests and decoding JSON bodies is left to the
//! caller's transport.

pub mod auth;
pub mod client;
pub mod endpoints;
pub mod model;
pub mod request;
pub mod text;
