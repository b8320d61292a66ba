//! Request and response logic of a client for the HiThink financial data API.
//!
//! The library holds what a call to the API decides: which query string a
//! request turns into, which URL it is sent to, and what a response envelope
//! yields. Sending the request and decoding the JSON body are left to the
//! caller.
pub mod endpoint;
pub mod form;
pub mod query;
pub mod request_params;
pub mod response;
pub mod types;
