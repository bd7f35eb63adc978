use fulfillment::handlers::{
    lights_off_reply, set_lights, set_lights_reply, turn_lights_off, turn_lights_on,
};
use fulfillment::params::ParameterSet;
use fulfillment::request::{parse_request, FulfillmentError, FulfillmentRequest, RawRequest};
use fulfillment::router::{
    dispatch, fulfill, fulfillment, route, Handler, LIGHTS_OFF_INTENT, LIGHTS_ON_INTENT,
    SET_LIGHTS_INTENT,
};

const ADVISORY: &str = "Sorry, I don't know how to do that yet.";

fn params(pairs: &[(&str, &str)]) -> ParameterSet {
    let mut p = ParameterSet::new();
    for (k, v) in pairs {
        p.insert(k.to_string(), v.to_string());
    }
    p
}

fn raw(intent: Option<&str>, pairs: &[(&str, &str)]) -> RawRequest {
    RawRequest {
        query_text: Some("turn off the lights".to_string()),
        intent_name: intent.map(|s| s.to_string()),
        display_name: Some("Lights".to_string()),
        parameters: Some(params(pairs)),
    }
}

fn reply_text(intent: &str, pairs: &[(&str, &str)]) -> Result<String, FulfillmentError> {
    fulfill(raw(Some(intent), pairs)).map(|r| r.fulfillment_text)
}

#[test]
fn parameter_set_get_and_replace() {
    let mut p = ParameterSet::new();
    assert_eq!(p.get("Room"), None);
    p.insert("Room".to_string(), "Lounge".to_string());
    p.insert("State".to_string(), "On".to_string());
    assert_eq!(p.get("Room").map(|s| s.as_str()), Some("Lounge"));
    p.insert("Room".to_string(), "Library".to_string());
    assert_eq!(p.get("Room").map(|s| s.as_str()), Some("Library"));
    assert_eq!(p.get("State").map(|s| s.as_str()), Some("On"));
    assert_eq!(p.get("room"), None);
}

#[test]
fn routing_of_registered_identifiers_is_stable() {
    for _ in 0..2 {
        assert_eq!(route(LIGHTS_ON_INTENT), Some(Handler::TurnLightsOn));
        assert_eq!(route(LIGHTS_OFF_INTENT), Some(Handler::TurnLightsOff));
        assert_eq!(route(SET_LIGHTS_INTENT), Some(Handler::SetLights));
    }
    assert_eq!(
        route("projects/shitpost-5f519/agent/intents/db2d53af-2d4e-47a5-a6e8-e27adb491ab7"),
        Some(Handler::TurnLightsOn)
    );
}

#[test]
fn routing_is_exact_match_only() {
    assert_eq!(route(""), None);
    assert_eq!(route("projects/shitpost-5f519/agent/intents/"), None);
    let longer = format!("{}x", LIGHTS_ON_INTENT);
    assert_eq!(route(&longer), None);
    assert_eq!(route(&LIGHTS_OFF_INTENT.to_uppercase()), None);
}

#[test]
fn unrecognized_intent_gives_advisory_whatever_the_parameters() {
    assert_eq!(reply_text("unknown/intent", &[]).unwrap(), ADVISORY);
    assert_eq!(reply_text("unknown/intent", &[("Room", "Lounge")]).unwrap(), ADVISORY);
    assert_eq!(
        reply_text("unknown/intent", &[("Room", "Lounge"), ("State", "On")]).unwrap(),
        ADVISORY
    );
    assert_eq!(reply_text("", &[]).unwrap(), ADVISORY);
}

#[test]
fn lights_on_text_is_constant() {
    let a = turn_lights_on();
    let b = turn_lights_on();
    assert_eq!(a, "The lights are on _for reals_");
    assert_eq!(a, b);
    assert_eq!(reply_text(LIGHTS_ON_INTENT, &[]).unwrap(), a);
    assert_eq!(reply_text(LIGHTS_ON_INTENT, &[("Room", "Lounge")]).unwrap(), a);
}

#[test]
fn lights_off_lowercases_the_room() {
    let text = turn_lights_off("Library");
    assert!(text.contains("library"));
    assert!(!text.contains("Library"));
    assert_eq!(text, "I'm turning off the lights in the library!");
}

#[test]
fn lights_off_through_the_router() {
    assert_eq!(
        reply_text(LIGHTS_OFF_INTENT, &[("Room", "User Center")]).unwrap(),
        "I'm turning off the lights in the user center!"
    );
}

#[test]
fn lights_off_with_empty_room_value() {
    assert_eq!(
        reply_text(LIGHTS_OFF_INTENT, &[("Room", "")]).unwrap(),
        "I'm turning off the lights in the !"
    );
}

#[test]
fn lowercasing_is_unicode_aware() {
    assert_eq!(turn_lights_off("ÉCOLE"), "I'm turning off the lights in the école!");
    assert_eq!(turn_lights_off("LOUNGE"), "I'm turning off the lights in the lounge!");
}

#[test]
fn set_lights_lowercases_both_values() {
    let text = set_lights("Lounge", "On");
    assert!(text.contains("lounge"));
    assert!(text.contains("on"));
    assert!(!text.contains("Lounge"));
    assert!(!text.contains("On"));
    assert_eq!(text, "I'm switching the lights in the lounge on!");
}

#[test]
fn set_lights_through_the_router() {
    assert_eq!(
        reply_text(SET_LIGHTS_INTENT, &[("State", "OFF"), ("Room", "Library")]).unwrap(),
        "I'm switching the lights in the library off!"
    );
}

#[test]
fn missing_room_is_a_missing_parameter_failure() {
    assert_eq!(
        reply_text(LIGHTS_OFF_INTENT, &[]),
        Err(FulfillmentError::MissingParameter("Room".to_string()))
    );
    assert_eq!(
        reply_text(LIGHTS_OFF_INTENT, &[("room", "Lounge")]),
        Err(FulfillmentError::MissingParameter("Room".to_string()))
    );
    assert_eq!(
        reply_text(SET_LIGHTS_INTENT, &[("State", "On")]),
        Err(FulfillmentError::MissingParameter("Room".to_string()))
    );
}

#[test]
fn missing_state_is_a_missing_parameter_failure() {
    assert_eq!(
        reply_text(SET_LIGHTS_INTENT, &[("Room", "Lounge")]),
        Err(FulfillmentError::MissingParameter("State".to_string()))
    );
    assert_eq!(
        dispatch(Handler::SetLights, &params(&[("Room", "Lounge")])),
        Err(FulfillmentError::MissingParameter("State".to_string()))
    );
}

#[test]
fn missing_intent_identifier_is_malformed() {
    assert_eq!(
        fulfill(raw(None, &[("Room", "Lounge")])).unwrap_err(),
        FulfillmentError::MalformedRequest
    );
}

#[test]
fn missing_other_fields_are_malformed() {
    let mut r = raw(Some(LIGHTS_ON_INTENT), &[]);
    r.display_name = None;
    assert_eq!(fulfill(r).unwrap_err(), FulfillmentError::MalformedRequest);
    let mut r = raw(Some(LIGHTS_ON_INTENT), &[]);
    r.query_text = None;
    assert_eq!(fulfill(r).unwrap_err(), FulfillmentError::MalformedRequest);
    let mut r = raw(Some(LIGHTS_ON_INTENT), &[]);
    r.parameters = None;
    assert_eq!(fulfill(r).unwrap_err(), FulfillmentError::MalformedRequest);
}

#[test]
fn parse_keeps_the_fields() {
    let req = parse_request(raw(Some(LIGHTS_OFF_INTENT), &[("Room", "Lounge")])).unwrap();
    assert_eq!(req.intent_name, LIGHTS_OFF_INTENT);
    assert_eq!(req.display_name, "Lights");
    assert_eq!(req.query_text, "turn off the lights");
    assert_eq!(req.parameters.get("Room").map(|s| s.as_str()), Some("Lounge"));
}

#[test]
fn handlers_are_idempotent() {
    assert_eq!(turn_lights_off("Lounge"), turn_lights_off("Lounge"));
    assert_eq!(set_lights("Lounge", "On"), set_lights("Lounge", "On"));
    let req = FulfillmentRequest {
        query_text: "lights".to_string(),
        intent_name: SET_LIGHTS_INTENT.to_string(),
        display_name: "Set lights".to_string(),
        parameters: params(&[("Room", "Lounge"), ("State", "On")]),
    };
    let a = fulfillment(&req).unwrap().fulfillment_text;
    let b = fulfillment(&req).unwrap().fulfillment_text;
    assert_eq!(a.as_bytes(), b.as_bytes());
    let extra = params(&[("Room", "Lounge"), ("State", "On"), ("Colour", "Red")]);
    assert_eq!(dispatch(Handler::SetLights, &extra), Ok(a));
}

#[test]
fn replies_embed_their_arguments_verbatim() {
    assert_eq!(lights_off_reply("lounge"), "I'm turning off the lights in the lounge!");
    assert_eq!(lights_off_reply("Lounge"), "I'm turning off the lights in the Lounge!");
    assert_eq!(set_lights_reply("library", "off"), "I'm switching the lights in the library off!");
    assert_eq!(set_lights_reply("", ""), "I'm switching the lights in the  !");
}
