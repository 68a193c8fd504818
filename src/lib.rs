//! Decides whether a network address hosts an ONVIF camera: validation of the
//! device address, derivation of its device-management endpoint, and the rule
//! that turns the outcome of one SOAP call into a probe result.

pub mod address;
pub mod onvif;
pub mod query;
