//! Intent handlers: pure functions from parameter values to response text.
use vstd::prelude::*;
use vstd::string::StringExecFns;

verus! {

/// What `str::to_lowercase` returns for a string: its full Unicode lower case.
pub uninterp spec fn lower_of(s: Seq<char>) -> Seq<char>;

/// Relies on `str::to_lowercase`: the result depends on the characters of `s`
/// alone, and the empty string stays empty.
#[verifier::external_body]
fn lowercase(s: &str) -> (r: String)
    ensures
        r@ == lower_of(s@),
        s@.len() == 0 ==> r@.len() == 0,
{
    s.to_lowercase()
}

/// The confirmation given when the lights are switched on.
pub open spec fn lights_on_text() -> Seq<char> {
    "The lights are on _for reals_"@
}

/// The confirmation given when the lights of `room` are switched off.
pub open spec fn lights_off_text(room: Seq<char>) -> Seq<char> {
    "I'm turning off the lights in the "@ + room + "!"@
}

/// The confirmation given when the lights of `room` are switched to `state`.
pub open spec fn set_lights_text(room: Seq<char>, state: Seq<char>) -> Seq<char> {
    "I'm switching the lights in the "@ + room + " "@ + state + "!"@
}

/// Handler of the intent that switches the lights on; it takes no parameter.
pub fn turn_lights_on() -> (r: String)
    ensures
        r@ == lights_on_text(),
{
    String::from_str("The lights are on _for reals_")
}

/// The switch-off confirmation for a room name that is already lower-cased.
pub fn lights_off_reply(room: &str) -> (r: String)
    ensures
        r@ == lights_off_text(room@),
{
    let mut text = String::from_str("I'm turning off the lights in the ");
    text.append(room);
    text.append("!");
    text
}

/// Handler of the intent that switches off the lights of one room.
pub fn turn_lights_off(room: &str) -> (r: String)
    ensures
        r@ == lights_off_text(lower_of(room@)),
{
    let lower = lowercase(room);
    lights_off_reply(lower.as_str())
}

/// The switch confirmation for a room and a state that are already lower-cased.
pub fn set_lights_reply(room: &str, state: &str) -> (r: String)
    ensures
        r@ == set_lights_text(room@, state@),
{
    let mut text = String::from_str("I'm switching the lights in the ");
    text.append(room);
    text.append(" ");
    text.append(state);
    text.append("!");
    text
}

/// Handler of the intent that switches the lights of one room on or off.
pub fn set_lights(room: &str, state: &str) -> (r: String)
    ensures
        r@ == set_lights_text(lower_of(room@), lower_of(state@)),
{
    let room_lower = lowercase(room);
    let state_lower = lowercase(state);
    set_lights_reply(room_lower.as_str(), state_lower.as_str())
}

} // verus!
