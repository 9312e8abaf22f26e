use nostr_client::event::Event;
use nostr_client::json::{parse, Json};
use nostr_client::response::{ParseResponseError, Response};

const PUBLIC_ONE: &str = "0279be667ef9dcbbac55a06295ce870b07029bfcdb2dce28d959f2815b16f81798";
const SECRET_ONE: &str = "0000000000000000000000000000000000000000000000000000000000000001";

fn malformed(tag: &str) -> Result<Response, ParseResponseError> {
    Err(ParseResponseError::UnknownOrMalformedResponse(tag.to_string()))
}

#[test]
fn eose_is_read() {
    assert_eq!(
        Response::from_str("[\"EOSE\",\"sub123\"]"),
        Ok(Response::EndOfStoredEvents { subscription_id: "sub123".to_string() })
    );
}

#[test]
fn ok_is_read() {
    assert_eq!(
        Response::from_str("[\"OK\", \"abc123\", true, \"\"]"),
        Ok(Response::Ack {
            event_id: "abc123".to_string(),
            accepted: true,
            message: String::new()
        })
    );
    assert_eq!(
        Response::from_str("[\"OK\",\"abc123\",false,\"blocked: spam\"]"),
        Ok(Response::Ack {
            event_id: "abc123".to_string(),
            accepted: false,
            message: "blocked: spam".to_string()
        })
    );
}

#[test]
fn closed_is_read() {
    assert_eq!(
        Response::from_str("[\"CLOSED\",\"sub123\",\"error: shutting down\"]"),
        Ok(Response::Closed {
            subscription_id: "sub123".to_string(),
            message: "error: shutting down".to_string()
        })
    );
}

#[test]
fn notice_is_read() {
    assert_eq!(
        Response::from_str("[\"NOTICE\",\"slow down \\\"please\\\"\"]"),
        Ok(Response::Notice { message: "slow down \"please\"".to_string() })
    );
}

#[test]
fn event_is_read_with_all_its_fields() {
    let text = "[\"EVENT\",\"sub123\",{\"id\":\"aa\",\"sig\":\"bb\",\
                \"pubkey\":\"79be667ef9dcbbac55a06295ce870b07029bfcdb2dce28d959f2815b16f81798\",\
                \"kind\":1,\"content\":\"hi\",\"created_at\":1700000000,\
                \"tags\":[[\"e\",\"abc\",\"wss://relay.example\"],[\"p\",\"def\"]]}]";
    match Response::from_str(text) {
        Ok(Response::Event { subscription_id, event }) => {
            assert_eq!(subscription_id, "sub123");
            assert_eq!(event.id().unwrap(), "aa");
            assert_eq!(event.sig().unwrap(), "bb");
            assert_eq!(
                event.pubkey().serialize(),
                "79be667ef9dcbbac55a06295ce870b07029bfcdb2dce28d959f2815b16f81798"
            );
            assert_eq!(event.kind(), 1);
            assert_eq!(event.content(), "hi");
            assert_eq!(event.created_at(), 1700000000);
            assert_eq!(
                event.tags(),
                &vec![
                    vec!["e".to_string(), "abc".to_string(), "wss://relay.example".to_string()],
                    vec!["p".to_string(), "def".to_string()],
                ]
            );
        }
        other => panic!("{:?}", other),
    }
}

#[test]
fn event_from_a_relay_keeps_its_valid_signature() {
    let mut event = Event::new_at(PUBLIC_ONE, 1, "signed".to_string(), 1700000000).unwrap();
    event.add_tag("p", "def", None);
    event.setup(SECRET_ONE).unwrap();
    let text = format!("[\"EVENT\",\"s\",{}]", event.to_json().to_text());
    match Response::from_str(&text) {
        Ok(Response::Event { subscription_id, event: read }) => {
            assert_eq!(subscription_id, "s");
            assert_eq!(read, event);
            assert!(read.verify(&read.pubkey()));
        }
        other => panic!("{:?}", other),
    }
}

#[test]
fn text_that_is_not_json_is_malformed() {
    assert_eq!(Response::from_str("not json"), Err(ParseResponseError::MalformedJson));
    assert_eq!(Response::from_str(""), Err(ParseResponseError::MalformedJson));
    assert_eq!(Response::from_str("[\"EOSE\",\"s\""), Err(ParseResponseError::MalformedJson));
}

#[test]
fn json_that_is_no_array_is_malformed() {
    assert_eq!(Response::from_str("\"not json\""), Err(ParseResponseError::MalformedJson));
    assert_eq!(Response::from_str("{\"EOSE\":\"s\"}"), Err(ParseResponseError::MalformedJson));
    assert_eq!(Response::from_str("12"), Err(ParseResponseError::MalformedJson));
    assert_eq!(Response::from_str("null"), Err(ParseResponseError::MalformedJson));
}

#[test]
fn empty_array_is_an_empty_message() {
    assert_eq!(Response::from_str("[]"), Err(ParseResponseError::EmptyMessage));
    assert_eq!(Response::from_str(" [ ] "), Err(ParseResponseError::EmptyMessage));
}

#[test]
fn unknown_tag_is_reported_with_the_tag() {
    assert_eq!(Response::from_str("[\"BOGUS\", 1, 2]"), malformed("BOGUS"));
    assert_eq!(Response::from_str("[\"eose\",\"s\"]"), malformed("eose"));
    assert_eq!(Response::from_str("[\"\"]"), malformed(""));
    assert_eq!(Response::from_str("[\"REQ\",\"s\"]"), malformed("REQ"));
}

#[test]
fn three_failures_are_three_kinds() {
    let bogus = Response::from_str("[\"BOGUS\", 1, 2]").unwrap_err();
    let text = Response::from_str("not json").unwrap_err();
    let empty = Response::from_str("[]").unwrap_err();
    assert_ne!(bogus, text);
    assert_ne!(bogus, empty);
    assert_ne!(text, empty);
}

#[test]
fn tag_of_another_type_is_reported_by_its_text() {
    assert_eq!(Response::from_str("[1, 2]"), malformed("1"));
    assert_eq!(Response::from_str("[null]"), malformed("null"));
    assert_eq!(Response::from_str("[[\"EOSE\"],\"s\"]"), malformed("[\"EOSE\"]"));
    assert_eq!(Response::from_str("[{\"a\":true}]"), malformed("{\"a\":true}"));
    assert_eq!(Response::from_str("[-1.5]"), malformed("-1.5"));
}

#[test]
fn missing_or_mistyped_elements_are_reported_with_the_tag() {
    for text in [
        "[\"EOSE\"]",
        "[\"EOSE\",1]",
        "[\"EOSE\",\"s\",\"more\"]",
        "[\"NOTICE\"]",
        "[\"NOTICE\",null]",
        "[\"NOTICE\",\"m\",\"n\"]",
        "[\"CLOSED\",\"s\"]",
        "[\"CLOSED\",\"s\",3]",
        "[\"CLOSED\",4,\"m\"]",
        "[\"CLOSED\",\"s\",\"m\",\"x\"]",
        "[\"OK\"]",
        "[\"OK\",\"id\",true]",
        "[\"OK\",\"id\",\"true\",\"m\"]",
        "[\"OK\",\"id\",1,\"m\"]",
        "[\"OK\",1,true,\"m\"]",
        "[\"OK\",\"id\",true,null]",
        "[\"OK\",\"id\",true,\"m\",\"x\"]",
        "[\"EVENT\"]",
        "[\"EVENT\",\"s\"]",
        "[\"EVENT\",\"s\",\"event\"]",
        "[\"EVENT\",\"s\",{}]",
        "[\"EVENT\",\"s\",{\"pubkey\":\"00\",\"kind\":1,\"content\":\"c\"}]",
    ] {
        let tag = match parse(text).unwrap() {
            Json::Array(items) => match &items[0] {
                Json::Str(tag) => tag.clone(),
                _ => unreachable!(),
            },
            _ => unreachable!(),
        };
        assert_eq!(Response::from_str(text), malformed(&tag), "{}", text);
    }
}

#[test]
fn event_with_a_request_shape_is_refused() {
    let event = Event::new_at(PUBLIC_ONE, 1, "hello".to_string(), 1700000000).unwrap();
    let request = format!("[\"EVENT\",{}]", event.to_json().to_text());
    assert_eq!(Response::from_str(&request), malformed("EVENT"));
    let id_in_wrong_place = format!("[\"EVENT\",{},\"s\"]", event.to_json().to_text());
    assert_eq!(Response::from_str(&id_in_wrong_place), malformed("EVENT"));
}

#[test]
fn from_json_reads_a_value_that_was_built() {
    let value =
        Json::Array(vec![Json::Str("NOTICE".to_string()), Json::Str("hello".to_string())]);
    assert_eq!(
        Response::from_json(&value),
        Ok(Response::Notice { message: "hello".to_string() })
    );
    assert_eq!(Response::from_json(&Json::Null), Err(ParseResponseError::MalformedJson));
    assert_eq!(
        Response::from_json(&Json::Array(vec![])),
        Err(ParseResponseError::EmptyMessage)
    );
    assert_eq!(Response::from_json(&Json::Array(vec![Json::Bool(true)])), malformed("true"));
}
