//! The probe's decision: one device-management call, and its outcome turned
//! into a yes-or-no answer. Every failure of the call counts as "no".

use vstd::prelude::*;

verus! {

/// The outcome of one probe.
#[derive(Debug, Clone, Copy, PartialEq, Eq, Structural)]
pub struct Result {
    pub is_onvif_device: bool,
}

/// The answer for the outcome `response` of the "get system date and time"
/// call: yes exactly when the call returned a parsed response.
pub open spec fn answers_yes<T, E>(response: core::result::Result<T, E>) -> bool {
    response is Ok
}

impl Result {
    /// The line that reports this outcome.
    pub fn to_string(&self) -> (r: String)
        ensures
            self.is_onvif_device ==> r@ == "is ONVIF device: true"@,
            !self.is_onvif_device ==> r@ == "is ONVIF device: false"@,
    {
        if self.is_onvif_device {
            "is ONVIF device: true".to_owned()
        } else {
            "is ONVIF device: false".to_owned()
        }
    }
}

/// Classifies the outcome of the "get system date and time" call: `true`
/// when it returned a parsed response, `false` for any error (transport,
/// timeout, refused connection, SOAP fault, malformed body).
pub fn is_onvif_device<T, E>(response: &core::result::Result<T, E>) -> (r: bool)
    ensures
        r == answers_yes(*response),
{
    match response {
        Ok(_) => true,
        Err(_) => false,
    }
}

/// The probe result for the outcome of the "get system date and time" call.
pub fn query<T, E>(response: core::result::Result<T, E>) -> (r: Result)
    ensures
        r.is_onvif_device == answers_yes(response),
{
    Result { is_onvif_device: is_onvif_device(&response) }
}

/// Probing a target twice gives the same answer whenever the two calls end
/// alike: both with a parsed response, or both with an error.
pub proof fn lemma_query_repeatable<T, E>(
    first: core::result::Result<T, E>,
    second: core::result::Result<T, E>,
)
    requires
        first is Ok == second is Ok,
    ensures
        answers_yes(first) == answers_yes(second),
{
}

} // verus!
