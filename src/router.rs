//! Routing of an intent to its handler, and the request-to-response pipeline.
use vstd::prelude::*;
use vstd::string::StringExecFns;

use crate::handlers::{
    lights_off_text, lights_on_text, lower_of, set_lights, set_lights_text, turn_lights_off,
    turn_lights_on,
};
use crate::params::ParameterSet;
use crate::request::{
    parse_request, FulfillmentError, FulfillmentRequest, FulfillmentResponse, RawRequest,
};

verus! {

/// Identifier of the intent that switches the lights on.
pub const LIGHTS_ON_INTENT: &'static str =
    "projects/shitpost-5f519/agent/intents/db2d53af-2d4e-47a5-a6e8-e27adb491ab7";

/// Identifier of the intent that switches off the lights of a room.
pub const LIGHTS_OFF_INTENT: &'static str =
    "projects/shitpost-5f519/agent/intents/5b3ee694-7626-493c-a5e4-f403b19444b5";

/// Identifier of the intent that switches the lights of a room on or off.
pub const SET_LIGHTS_INTENT: &'static str = "projects/shitpost-5f519/agent/intents/set-lights";

/// Name of the parameter that holds a room.
pub const ROOM_PARAMETER: &'static str = "Room";

/// Name of the parameter that holds an on/off state.
pub const STATE_PARAMETER: &'static str = "State";

/// The handlers that an intent can be routed to.
#[derive(Clone, Copy, Debug, PartialEq, Eq, Structural)]
pub enum Handler {
    TurnLightsOn,
    TurnLightsOff,
    SetLights,
}

/// The advisory given for an intent that no handler serves.
pub open spec fn unsupported_text() -> Seq<char> {
    "Sorry, I don't know how to do that yet."@
}

/// The registry: each known intent identifier and its handler.
pub open spec fn registry() -> Map<Seq<char>, Handler> {
    map![
        LIGHTS_ON_INTENT@ => Handler::TurnLightsOn,
        LIGHTS_OFF_INTENT@ => Handler::TurnLightsOff,
        SET_LIGHTS_INTENT@ => Handler::SetLights,
    ]
}

/// The handler selected for an intent identifier, by exact equality.
pub open spec fn route_of(id: Seq<char>) -> Option<Handler> {
    if id == LIGHTS_ON_INTENT@ {
        Some(Handler::TurnLightsOn)
    } else if id == LIGHTS_OFF_INTENT@ {
        Some(Handler::TurnLightsOff)
    } else if id == SET_LIGHTS_INTENT@ {
        Some(Handler::SetLights)
    } else {
        None
    }
}

/// The parameter names that a handler needs, in the order it looks for them.
pub open spec fn required_keys(h: Handler) -> Seq<Seq<char>> {
    match h {
        Handler::TurnLightsOn => seq![],
        Handler::TurnLightsOff => seq![ROOM_PARAMETER@],
        Handler::SetLights => seq![ROOM_PARAMETER@, STATE_PARAMETER@],
    }
}

/// What a handler replies given the parameters: the response text, or the
/// name of the first required parameter that is absent.
pub open spec fn handler_reply(h: Handler, params: Map<Seq<char>, Seq<char>>) -> Result<
    Seq<char>,
    Seq<char>,
> {
    match h {
        Handler::TurnLightsOn => Ok(lights_on_text()),
        Handler::TurnLightsOff => {
            if !params.contains_key(ROOM_PARAMETER@) {
                Err(ROOM_PARAMETER@)
            } else {
                Ok(lights_off_text(lower_of(params[ROOM_PARAMETER@])))
            }
        },
        Handler::SetLights => {
            if !params.contains_key(ROOM_PARAMETER@) {
                Err(ROOM_PARAMETER@)
            } else if !params.contains_key(STATE_PARAMETER@) {
                Err(STATE_PARAMETER@)
            } else {
                Ok(
                    set_lights_text(
                        lower_of(params[ROOM_PARAMETER@]),
                        lower_of(params[STATE_PARAMETER@]),
                    ),
                )
            }
        },
    }
}

/// What a request with this intent identifier and these parameters is
/// answered with: the text of the response, or the missing parameter's name.
pub open spec fn request_reply(id: Seq<char>, params: Map<Seq<char>, Seq<char>>) -> Result<
    Seq<char>,
    Seq<char>,
> {
    match route_of(id) {
        Some(h) => handler_reply(h, params),
        None => Ok(unsupported_text()),
    }
}

/// Whether an executable outcome is the reply `m`: the same text, or a
/// `MissingParameter` failure that names the same key.
pub open spec fn text_is_reply(r: Result<String, FulfillmentError>, m: Result<Seq<char>, Seq<char>>) -> bool {
    match m {
        Ok(t) => r matches Ok(s) && s@ == t,
        Err(k) => r matches Err(FulfillmentError::MissingParameter(n)) && n@ == k,
    }
}

/// Whether a response outcome is the reply `m`.
pub open spec fn response_is_reply(
    r: Result<FulfillmentResponse, FulfillmentError>,
    m: Result<Seq<char>, Seq<char>>,
) -> bool {
    match m {
        Ok(t) => r matches Ok(resp) && resp.fulfillment_text@ == t,
        Err(k) => r matches Err(FulfillmentError::MissingParameter(n)) && n@ == k,
    }
}

/// Whether two strings hold the same characters.
fn same_text(a: &str, b: &str) -> (r: bool)
    ensures
        r == (a@ == b@),
{
    String::from_str(a) == String::from_str(b)
}

/// Selects the handler registered for the intent identifier `id`, if any.
pub fn route(id: &str) -> (r: Option<Handler>)
    ensures
        r == route_of(id@),
{
    if same_text(id, LIGHTS_ON_INTENT) {
        Some(Handler::TurnLightsOn)
    } else if same_text(id, LIGHTS_OFF_INTENT) {
        Some(Handler::TurnLightsOff)
    } else if same_text(id, SET_LIGHTS_INTENT) {
        Some(Handler::SetLights)
    } else {
        None
    }
}

/// The value of the required parameter `key`, or the failure that names it.
fn required<'a>(params: &'a ParameterSet, key: &str) -> (r: Result<&'a String, FulfillmentError>)
    ensures
        match r {
            Ok(v) => params@.contains_key(key@) && v@ == params@[key@],
            Err(e) => {
                &&& !params@.contains_key(key@)
                &&& e matches FulfillmentError::MissingParameter(n) && n@ == key@
            },
        },
{
    match params.get(key) {
        Some(v) => Ok(v),
        None => Err(FulfillmentError::MissingParameter(String::from_str(key))),
    }
}

/// Runs handler `h` on the parameters it needs.
pub fn dispatch(h: Handler, params: &ParameterSet) -> (r: Result<String, FulfillmentError>)
    ensures
        text_is_reply(r, handler_reply(h, params@)),
{
    match h {
        Handler::TurnLightsOn => Ok(turn_lights_on()),
        Handler::TurnLightsOff => {
            let room = match required(params, ROOM_PARAMETER) {
                Ok(v) => v,
                Err(e) => return Err(e),
            };
            Ok(turn_lights_off(room.as_str()))
        },
        Handler::SetLights => {
            let room = match required(params, ROOM_PARAMETER) {
                Ok(v) => v,
                Err(e) => return Err(e),
            };
            let state = match required(params, STATE_PARAMETER) {
                Ok(v) => v,
                Err(e) => return Err(e),
            };
            Ok(set_lights(room.as_str(), state.as_str()))
        },
    }
}

/// Answers a checked request: routes its intent and runs the handler, or
/// gives the fixed advisory when no handler serves the intent.
pub fn fulfillment(req: &FulfillmentRequest) -> (r: Result<FulfillmentResponse, FulfillmentError>)
    ensures
        response_is_reply(r, request_reply(req.intent_name@, req.parameters@)),
{
    let text = match route(req.intent_name.as_str()) {
        Some(h) => match dispatch(h, &req.parameters) {
            Ok(t) => t,
            Err(e) => return Err(e),
        },
        None => String::from_str("Sorry, I don't know how to do that yet."),
    };
    Ok(FulfillmentResponse { fulfillment_text: text })
}

/// Answers a decoded payload: checks its shape, then fulfills it.
pub fn fulfill(raw: RawRequest) -> (r: Result<FulfillmentResponse, FulfillmentError>)
    ensures
        !raw.is_complete() ==> r == Err::<FulfillmentResponse, FulfillmentError>(
            FulfillmentError::MalformedRequest,
        ),
        raw.is_complete() ==> response_is_reply(
            r,
            request_reply(raw.intent_name->0@, raw.parameters->0@),
        ),
{
    let req = match parse_request(raw) {
        Ok(q) => q,
        Err(e) => return Err(e),
    };
    fulfillment(&req)
}

/// Routing is a pure lookup in the registry: equal identifiers select the same
/// handler, a registered identifier selects the handler registered for it, and
/// any other identifier selects none.
pub proof fn lemma_routing_deterministic(a: Seq<char>, b: Seq<char>)
    requires
        a == b,
    ensures
        route_of(a) == route_of(b),
        registry().contains_key(a) ==> route_of(a) == Some(registry()[a]),
        !registry().contains_key(a) ==> route_of(a) is None,
{
    reveal_strlit("projects/shitpost-5f519/agent/intents/db2d53af-2d4e-47a5-a6e8-e27adb491ab7");
    reveal_strlit("projects/shitpost-5f519/agent/intents/5b3ee694-7626-493c-a5e4-f403b19444b5");
    reveal_strlit("projects/shitpost-5f519/agent/intents/set-lights");
    assert(LIGHTS_ON_INTENT@[38] != LIGHTS_OFF_INTENT@[38]);
    assert(LIGHTS_ON_INTENT@[38] != SET_LIGHTS_INTENT@[38]);
    assert(LIGHTS_OFF_INTENT@[38] != SET_LIGHTS_INTENT@[38]);
}

/// An identifier outside the registry is always answered with the fixed
/// advisory, whatever parameters come with it.
pub proof fn lemma_unrecognized_intent(
    id: Seq<char>,
    p: Map<Seq<char>, Seq<char>>,
    q: Map<Seq<char>, Seq<char>>,
)
    requires
        !registry().contains_key(id),
    ensures
        request_reply(id, p) == Ok::<Seq<char>, Seq<char>>(unsupported_text()),
        request_reply(id, p) == request_reply(id, q),
{
    lemma_routing_deterministic(id, id);
}

/// When a parameter that the selected handler requires is absent, the
/// request fails and names a required parameter that is absent; it never
/// gets a default or empty response.
pub proof fn lemma_missing_parameter(id: Seq<char>, params: Map<Seq<char>, Seq<char>>, key: Seq<char>)
    requires
        route_of(id) is Some,
        required_keys(route_of(id)->0).contains(key),
        !params.contains_key(key),
    ensures
        request_reply(id, params) matches Err(k) && required_keys(route_of(id)->0).contains(k)
            && !params.contains_key(k),
{
    let h = route_of(id)->0;
    match h {
        Handler::TurnLightsOn => {},
        Handler::TurnLightsOff => {
            assert(required_keys(h)[0] == ROOM_PARAMETER@);
        },
        Handler::SetLights => {
            assert(required_keys(h)[0] == ROOM_PARAMETER@);
            assert(required_keys(h)[1] == STATE_PARAMETER@);
        },
    }
}

/// A handler's reply depends on its required parameters alone: two calls on
/// parameter sets that agree on those give the same text, or the same failure.
pub proof fn lemma_handler_idempotent(
    h: Handler,
    p: Map<Seq<char>, Seq<char>>,
    q: Map<Seq<char>, Seq<char>>,
)
    requires
        forall|k: Seq<char>|
            #[trigger] required_keys(h).contains(k) ==> (p.contains_key(k) == q.contains_key(k) && (
            p.contains_key(k) ==> p[k] == q[k])),
    ensures
        handler_reply(h, p) == handler_reply(h, q),
{
    match h {
        Handler::TurnLightsOn => {},
        Handler::TurnLightsOff => {
            assert(required_keys(h)[0] == ROOM_PARAMETER@);
            assert(required_keys(h).contains(ROOM_PARAMETER@));
        },
        Handler::SetLights => {
            assert(required_keys(h)[0] == ROOM_PARAMETER@);
            assert(required_keys(h)[1] == STATE_PARAMETER@);
            assert(required_keys(h).contains(ROOM_PARAMETER@));
            assert(required_keys(h).contains(STATE_PARAMETER@));
        },
    }
}

} // verus!
