//! What a relay sends to a client, and the reading of its wire text.

use vstd::prelude::*;
use vstd::string::StringExecFns;

use crate::event::{event_of_json, Event, EventView};
use crate::json::{json_parsed, json_text, parse, Json, JsonValue};

verus! {

/// A message from relay to client.
#[derive(Clone, Debug, PartialEq, Eq)]
pub enum Response {
    /// An event that a subscription selects.
    Event { subscription_id: String, event: Event },
    /// The relay's answer to a published event.
    Ack { event_id: String, accepted: bool, message: String },
    /// The stored events of a subscription have all been sent.
    EndOfStoredEvents { subscription_id: String },
    /// The relay has ended a subscription.
    Closed { subscription_id: String, message: String },
    /// A message for the person at the client.
    Notice { message: String },
}

/// A response as a mathematical object.
pub enum ResponseView {
    Event { subscription_id: Seq<char>, event: EventView },
    Ack { event_id: Seq<char>, accepted: bool, message: Seq<char> },
    EndOfStoredEvents { subscription_id: Seq<char> },
    Closed { subscription_id: Seq<char>, message: Seq<char> },
    Notice { message: Seq<char> },
}

impl View for Response {
    type V = ResponseView;

    open spec fn view(&self) -> ResponseView {
        match self {
            Response::Event { subscription_id, event } => ResponseView::Event {
                subscription_id: subscription_id@,
                event: event@,
            },
            Response::Ack { event_id, accepted, message } => ResponseView::Ack {
                event_id: event_id@,
                accepted: *accepted,
                message: message@,
            },
            Response::EndOfStoredEvents { subscription_id } => ResponseView::EndOfStoredEvents {
                subscription_id: subscription_id@,
            },
            Response::Closed { subscription_id, message } => ResponseView::Closed {
                subscription_id: subscription_id@,
                message: message@,
            },
            Response::Notice { message } => ResponseView::Notice { message: message@ },
        }
    }
}

/// Why a message from a relay could not be read. Each is an error of that one message.
#[derive(Clone, Debug, PartialEq, Eq)]
pub enum ParseResponseError {
    /// The text is not a JSON array.
    MalformedJson,
    /// The array has no elements.
    EmptyMessage,
    /// The array's tag names no response, or its elements are not those of the response
    /// it names. Holds the tag.
    UnknownOrMalformedResponse(String),
}

/// A reading error as a mathematical object.
pub enum ParseErrorView {
    MalformedJson,
    EmptyMessage,
    UnknownOrMalformedResponse(Seq<char>),
}

impl View for ParseResponseError {
    type V = ParseErrorView;

    open spec fn view(&self) -> ParseErrorView {
        match self {
            ParseResponseError::MalformedJson => ParseErrorView::MalformedJson,
            ParseResponseError::EmptyMessage => ParseErrorView::EmptyMessage,
            ParseResponseError::UnknownOrMalformedResponse(tag) =>
                ParseErrorView::UnknownOrMalformedResponse(tag@),
        }
    }
}

/// The outcome of a reading, as a mathematical object.
pub open spec fn outcome_view(outcome: Result<Response, ParseResponseError>) -> Result<
    ResponseView,
    ParseErrorView,
> {
    match outcome {
        Ok(response) => Ok(response@),
        Err(error) => Err(error@),
    }
}

/// The tag of a message as an error reports it: the first element itself where it is a
/// string, its compact text where it is anything else.
pub open spec fn tag_text(first: JsonValue) -> Seq<char> {
    match first {
        JsonValue::Str(tag) => tag,
        other => json_text(other),
    }
}

/// The response that the elements of a non-empty array make up, by the tag in front:
/// `EVENT` with a subscription and an event object, `OK` with an event identifier, a
/// boolean and a message, `EOSE` with a subscription, `CLOSED` with a subscription and
/// a message, `NOTICE` with a message. The elements must be exactly these, each of its
/// type; `None` for everything else.
pub open spec fn shaped(items: Seq<JsonValue>) -> Option<ResponseView> {
    match items[0] {
        JsonValue::Str(tag) => {
            if tag == "EVENT"@ {
                match (items.len() == 3, items[1], event_of_json(items[2])) {
                    (true, JsonValue::Str(subscription_id), Some(event)) => Some(
                        ResponseView::Event { subscription_id, event },
                    ),
                    _ => None,
                }
            } else if tag == "OK"@ {
                match (items.len() == 4, items[1], items[2], items[3]) {
                    (
                        true,
                        JsonValue::Str(event_id),
                        JsonValue::Bool(accepted),
                        JsonValue::Str(message),
                    ) => Some(ResponseView::Ack { event_id, accepted, message }),
                    _ => None,
                }
            } else if tag == "EOSE"@ {
                match (items.len() == 2, items[1]) {
                    (true, JsonValue::Str(subscription_id)) => Some(
                        ResponseView::EndOfStoredEvents { subscription_id },
                    ),
                    _ => None,
                }
            } else if tag == "CLOSED"@ {
                match (items.len() == 3, items[1], items[2]) {
                    (true, JsonValue::Str(subscription_id), JsonValue::Str(message)) => Some(
                        ResponseView::Closed { subscription_id, message },
                    ),
                    _ => None,
                }
            } else if tag == "NOTICE"@ {
                match (items.len() == 2, items[1]) {
                    (true, JsonValue::Str(message)) => Some(ResponseView::Notice { message }),
                    _ => None,
                }
            } else {
                None
            }
        },
        _ => None,
    }
}

/// What a JSON value read from a relay comes to: `MalformedJson` where it is no array,
/// `EmptyMessage` where the array is empty, the response that its elements make up
/// where they make one up, and `UnknownOrMalformedResponse` with the tag otherwise.
pub open spec fn response_of_json(v: JsonValue) -> Result<ResponseView, ParseErrorView> {
    match v {
        JsonValue::Array(items) => if items.len() == 0 {
            Err(ParseErrorView::EmptyMessage)
        } else {
            match shaped(items) {
                Some(response) => Ok(response),
                None => Err(ParseErrorView::UnknownOrMalformedResponse(tag_text(items[0]))),
            }
        },
        _ => Err(ParseErrorView::MalformedJson),
    }
}

/// What a text read from a relay comes to: `MalformedJson` where it is not JSON, and
/// what its value comes to where it is.
pub open spec fn decoded(text: Seq<char>) -> Result<ResponseView, ParseErrorView> {
    match json_parsed(text) {
        Some(v) => response_of_json(v),
        None => Err(ParseErrorView::MalformedJson),
    }
}

/// A copy of the string that `value` is, where it is one.
fn string_of(value: &Json) -> (text: Option<String>)
    ensures
        match value@ {
            JsonValue::Str(s) => text matches Some(t) && t@ == s,
            _ => text is None,
        },
{
    match value {
        Json::Str(s) => Some(s.clone()),
        _ => None,
    }
}

/// Reads the elements of a non-empty array as a response.
fn read_shape(items: &Vec<Json>) -> (read: Option<Response>)
    requires
        items@.len() > 0,
    ensures
        match shaped(crate::json::item_values(items@)) {
            Some(response) => read matches Some(r) && r@ == response,
            None => read is None,
        },
{
    let ghost held = crate::json::item_values(items@);
    assert(forall|k: int| 0 <= k < items@.len() ==> held[k] == (#[trigger] items@[k])@);
    let tag = match &items[0] {
        Json::Str(tag) => tag,
        _ => {
            return None;
        },
    };
    let count = items.len();
    if *tag == String::from_str("EVENT") {
        if count != 3 {
            return None;
        }
        let subscription_id = match string_of(&items[1]) {
            Some(text) => text,
            None => {
                return None;
            },
        };
        match Event::from_json(&items[2]) {
            Some(event) => Some(Response::Event { subscription_id, event }),
            None => None,
        }
    } else if *tag == String::from_str("OK") {
        if count != 4 {
            return None;
        }
        let event_id = match string_of(&items[1]) {
            Some(text) => text,
            None => {
                return None;
            },
        };
        let accepted = match &items[2] {
            Json::Bool(accepted) => *accepted,
            _ => {
                return None;
            },
        };
        match string_of(&items[3]) {
            Some(message) => Some(Response::Ack { event_id, accepted, message }),
            None => None,
        }
    } else if *tag == String::from_str("EOSE") {
        if count != 2 {
            return None;
        }
        match string_of(&items[1]) {
            Some(subscription_id) => Some(Response::EndOfStoredEvents { subscription_id }),
            None => None,
        }
    } else if *tag == String::from_str("CLOSED") {
        if count != 3 {
            return None;
        }
        let subscription_id = match string_of(&items[1]) {
            Some(text) => text,
            None => {
                return None;
            },
        };
        match string_of(&items[2]) {
            Some(message) => Some(Response::Closed { subscription_id, message }),
            None => None,
        }
    } else if *tag == String::from_str("NOTICE") {
        if count != 2 {
            return None;
        }
        match string_of(&items[1]) {
            Some(message) => Some(Response::Notice { message }),
            None => None,
        }
    } else {
        None
    }
}

impl Response {
    /// Reads a response from the JSON value of a message.
    pub fn from_json(value: &Json) -> (read: Result<Response, ParseResponseError>)
        ensures
            outcome_view(read) == response_of_json(value@),
    {
        match value {
            Json::Array(items) => {
                if items.len() == 0 {
                    return Err(ParseResponseError::EmptyMessage);
                }
                match read_shape(items) {
                    Some(response) => Ok(response),
                    None => {
                        assert(value@->Array_0[0] == items@[0]@);
                        let tag = match &items[0] {
                            Json::Str(tag) => tag.clone(),
                            other => other.to_text(),
                        };
                        Err(ParseResponseError::UnknownOrMalformedResponse(tag))
                    },
                }
            },
            _ => Err(ParseResponseError::MalformedJson),
        }
    }

    /// Reads a response from the text of a message. Never fails but by its result.
    pub fn from_str(s: &str) -> (read: Result<Response, ParseResponseError>)
        ensures
            outcome_view(read) == decoded(s@),
    {
        match parse(s) {
            Some(value) => Response::from_json(&value),
            None => Err(ParseResponseError::MalformedJson),
        }
    }
}

} // verus!
