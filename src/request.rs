//! The inbound and outbound payloads, and the check of the inbound shape.
use vstd::prelude::*;

use crate::params::ParameterSet;

verus! {

/// An inbound payload as it was decoded, before its shape is checked: each
/// field is `None` where the payload lacked it.
#[derive(Debug)]
pub struct RawRequest {
    /// The raw query text of the user's utterance.
    pub query_text: Option<String>,
    /// The identifier of the recognized intent.
    pub intent_name: Option<String>,
    /// The human-readable name of the recognized intent.
    pub display_name: Option<String>,
    /// The parameters block.
    pub parameters: Option<ParameterSet>,
}

/// A request whose shape has been checked. Only `intent_name` and
/// `parameters` take part in fulfillment; the other fields are informational.
#[derive(Debug)]
pub struct FulfillmentRequest {
    pub query_text: String,
    pub intent_name: String,
    pub display_name: String,
    pub parameters: ParameterSet,
}

/// The outbound payload: the text that the agent relays to the user.
#[derive(Debug)]
pub struct FulfillmentResponse {
    pub fulfillment_text: String,
}

/// Why a request could not be fulfilled.
#[derive(Debug, Clone, PartialEq, Eq)]
pub enum FulfillmentError {
    /// The payload lacks a field of the expected shape, such as the intent identifier.
    MalformedRequest,
    /// The selected handler needs the parameter of this name and the request has none.
    MissingParameter(String),
}

impl RawRequest {
    /// Whether the payload holds every field of the expected shape.
    pub open spec fn is_complete(&self) -> bool {
        &&& self.query_text is Some
        &&& self.intent_name is Some
        &&& self.display_name is Some
        &&& self.parameters is Some
    }
}

/// Checks the shape of a decoded payload. A payload that lacks any field,
/// in particular the intent identifier, is a `MalformedRequest`; an empty
/// parameters block is fine.
pub fn parse_request(raw: RawRequest) -> (r: Result<FulfillmentRequest, FulfillmentError>)
    ensures
        r is Ok <==> raw.is_complete(),
        raw.intent_name is None ==> r == Err::<FulfillmentRequest, FulfillmentError>(
            FulfillmentError::MalformedRequest,
        ),
        match r {
            Ok(q) => {
                &&& q.query_text == raw.query_text->0
                &&& q.intent_name == raw.intent_name->0
                &&& q.display_name == raw.display_name->0
                &&& q.parameters == raw.parameters->0
            },
            Err(e) => e == FulfillmentError::MalformedRequest,
        },
{
    match (raw.query_text, raw.intent_name, raw.display_name, raw.parameters) {
        (Some(query_text), Some(intent_name), Some(display_name), Some(parameters)) => Ok(
            FulfillmentRequest { query_text, intent_name, display_name, parameters },
        ),
        _ => Err(FulfillmentError::MalformedRequest),
    }
}

} // verus!
