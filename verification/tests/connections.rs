use nostr_client::connection::{Connection, State, Step, TransportError, SUBSCRIPTION_ID_LENGTH};
use nostr_client::event::Event;
use nostr_client::request::Filter;
use nostr_client::response::{ParseResponseError, Response};

const PUBLIC_ONE: &str = "0279be667ef9dcbbac55a06295ce870b07029bfcdb2dce28d959f2815b16f81798";

fn filter() -> Filter {
    Filter::new(vec![], vec![], vec![1], vec![], 0, 0, 10)
}

fn open() -> Connection {
    let mut connection = Connection::new("wss://relay.example");
    connection.opened();
    connection
}

fn subscribed(id: &str) -> Connection {
    let mut connection = open();
    connection.subscribe_as(id.to_string(), vec![filter()]).unwrap();
    connection
}

fn event() -> Event {
    Event::new_at(PUBLIC_ONE, 1, "hello".to_string(), 1700000000).unwrap()
}

#[test]
fn new_connection_is_not_open() {
    let connection = Connection::new("wss://relay.example");
    assert_eq!(connection.state(), &State::Disconnected);
    assert_eq!(connection.relay_url(), "wss://relay.example");
    assert_eq!(connection.subscription_id(), None);
    assert_eq!(connection.read_timeout(), None);
}

#[test]
fn opening_connects_without_a_subscription() {
    let mut connection = Connection::new("wss://relay.example");
    connection.opened();
    assert_eq!(connection.state(), &State::Connected);
    assert_eq!(connection.subscription_id(), None);
    let mut busy = subscribed("abc");
    busy.opened();
    assert_eq!(busy.state(), &State::Subscribed("abc".to_string()));
}

#[test]
fn read_timeout_is_kept() {
    let mut connection = open();
    connection.set_read_timeout(Some(30));
    assert_eq!(connection.read_timeout(), Some(30));
    assert_eq!(connection.state(), &State::Connected);
    connection.set_read_timeout(None);
    assert_eq!(connection.read_timeout(), None);
}

#[test]
fn publish_gives_the_request_text_when_connected() {
    let connection = open();
    let text = connection.publish_event(event()).unwrap();
    assert_eq!(
        text,
        "[\"EVENT\",{\"id\":null,\"sig\":null,\
         \"pubkey\":\"79be667ef9dcbbac55a06295ce870b07029bfcdb2dce28d959f2815b16f81798\",\
         \"kind\":1,\"content\":\"hello\",\"created_at\":1700000000,\"tags\":[]}]"
    );
    assert_eq!(connection.state(), &State::Connected);
}

#[test]
fn publish_needs_an_open_and_idle_connection() {
    let closed = Connection::new("wss://relay.example");
    assert_eq!(closed.publish_event(event()), Err(TransportError::NotConnected));
    let busy = subscribed("abc");
    assert_eq!(busy.publish_event(event()), Err(TransportError::Busy));
}

#[test]
fn publish_reply_is_the_next_message_whatever_it_is() {
    let connection = open();
    assert_eq!(
        connection.publish_reply("[\"OK\",\"id\",true,\"\"]"),
        Ok(Response::Ack { event_id: "id".to_string(), accepted: true, message: String::new() })
    );
    assert_eq!(
        connection.publish_reply("[\"NOTICE\",\"busy\"]"),
        Ok(Response::Notice { message: "busy".to_string() })
    );
}

#[test]
fn publish_reply_that_cannot_be_read_is_a_protocol_error() {
    let connection = open();
    assert_eq!(
        connection.publish_reply("not json"),
        Err(TransportError::Protocol(ParseResponseError::MalformedJson))
    );
    assert_eq!(
        connection.publish_reply("[]"),
        Err(TransportError::Protocol(ParseResponseError::EmptyMessage))
    );
    assert_eq!(
        connection.publish_reply("[\"BOGUS\", 1, 2]"),
        Err(TransportError::Protocol(ParseResponseError::UnknownOrMalformedResponse(
            "BOGUS".to_string()
        )))
    );
    assert_eq!(
        Connection::reply(Err(ParseResponseError::EmptyMessage)),
        Err(TransportError::Protocol(ParseResponseError::EmptyMessage))
    );
}

#[test]
fn subscribe_as_records_the_identifier() {
    let mut connection = open();
    let text = connection.subscribe_as("abc".to_string(), vec![filter(), filter()]).unwrap();
    assert_eq!(
        text,
        "[\"REQ\",\"abc\",\
         {\"ids\":[],\"authors\":[],\"kinds\":[1],\"tag_values\":[],\"since\":0,\"until\":0,\"limit\":10},\
         {\"ids\":[],\"authors\":[],\"kinds\":[1],\"tag_values\":[],\"since\":0,\"until\":0,\"limit\":10}]"
    );
    assert_eq!(connection.state(), &State::Subscribed("abc".to_string()));
    assert_eq!(connection.subscription_id().unwrap(), "abc");
}

#[test]
fn subscribe_needs_an_open_and_idle_connection() {
    let mut closed = Connection::new("wss://relay.example");
    assert_eq!(closed.subscribe(vec![filter()]), Err(TransportError::NotConnected));
    assert_eq!(
        closed.subscribe_as("x".to_string(), vec![]),
        Err(TransportError::NotConnected)
    );
    assert_eq!(closed.state(), &State::Disconnected);
    let mut busy = subscribed("abc");
    assert_eq!(busy.subscribe(vec![filter()]), Err(TransportError::Busy));
    assert_eq!(busy.subscribe_as("x".to_string(), vec![]), Err(TransportError::Busy));
    assert_eq!(busy.state(), &State::Subscribed("abc".to_string()));
}

#[test]
fn subscribe_draws_an_identifier_of_64_letters_and_digits() {
    let mut connection = open();
    let subscription = connection.subscribe(vec![filter()]).unwrap();
    assert_eq!(SUBSCRIPTION_ID_LENGTH, 64);
    assert_eq!(subscription.id.chars().count(), 64);
    assert!(subscription.id.chars().all(|c| c.is_ascii_alphanumeric()));
    assert_eq!(connection.subscription_id(), Some(&subscription.id));
    assert_eq!(
        subscription.request,
        format!(
            "[\"REQ\",\"{}\",{{\"ids\":[],\"authors\":[],\"kinds\":[1],\"tag_values\":[],\
             \"since\":0,\"until\":0,\"limit\":10}}]",
            subscription.id
        )
    );
}

#[test]
fn two_subscriptions_in_sequence_have_distinct_identifiers() {
    let mut connection = open();
    let first = connection.subscribe(vec![filter()]).unwrap();
    connection.close().unwrap();
    let second = connection.subscribe(vec![filter()]).unwrap();
    assert_ne!(first.id, second.id);
    assert_eq!(first.id.len(), 64);
    assert_eq!(second.id.len(), 64);
    assert!(second.id.chars().all(|c| c.is_ascii_alphanumeric()));
    assert_eq!(connection.state(), &State::Subscribed(second.id));
}

#[test]
fn close_ends_the_subscription_without_waiting() {
    let mut connection = subscribed("abc");
    assert_eq!(connection.close(), Ok("[\"CLOSE\",\"abc\"]".to_string()));
    assert_eq!(connection.state(), &State::Connected);
    assert_eq!(connection.close(), Err(TransportError::NotSubscribed));
    assert_eq!(connection.state(), &State::Connected);
    let mut closed = Connection::new("wss://relay.example");
    assert_eq!(closed.close(), Err(TransportError::NotConnected));
    assert_eq!(closed.state(), &State::Disconnected);
}

#[test]
fn receive_delivers_what_it_can_read() {
    let mut connection = subscribed("abc");
    assert_eq!(
        connection.receive("[\"EOSE\",\"abc\"]"),
        Step::Deliver(Response::EndOfStoredEvents { subscription_id: "abc".to_string() })
    );
    assert_eq!(
        connection.receive("[\"NOTICE\",\"hello\"]"),
        Step::Deliver(Response::Notice { message: "hello".to_string() })
    );
    assert_eq!(connection.state(), &State::Subscribed("abc".to_string()));
}

#[test]
fn receive_reports_what_it_cannot_read_and_goes_on() {
    let mut connection = subscribed("abc");
    assert_eq!(connection.receive("{oops"), Step::Report(ParseResponseError::MalformedJson));
    assert_eq!(connection.receive("[]"), Step::Report(ParseResponseError::EmptyMessage));
    assert_eq!(
        connection.receive("[\"BOGUS\"]"),
        Step::Report(ParseResponseError::UnknownOrMalformedResponse("BOGUS".to_string()))
    );
    assert_eq!(connection.state(), &State::Subscribed("abc".to_string()));
}

#[test]
fn receive_finishes_on_closed_for_this_subscription_only() {
    let mut connection = subscribed("abc");
    assert_eq!(
        connection.receive("[\"CLOSED\",\"other\",\"bye\"]"),
        Step::Deliver(Response::Closed {
            subscription_id: "other".to_string(),
            message: "bye".to_string()
        })
    );
    assert_eq!(connection.state(), &State::Subscribed("abc".to_string()));
    assert_eq!(
        connection.receive("[\"CLOSED\",\"abc\",\"bye\"]"),
        Step::Finish(Response::Closed {
            subscription_id: "abc".to_string(),
            message: "bye".to_string()
        })
    );
    assert_eq!(connection.state(), &State::Connected);
    assert_eq!(
        connection.receive("[\"CLOSED\",\"abc\",\"bye\"]"),
        Step::Deliver(Response::Closed {
            subscription_id: "abc".to_string(),
            message: "bye".to_string()
        })
    );
}

#[test]
fn step_decides_on_a_reading() {
    let mut connection = subscribed("abc");
    let closed =
        Response::Closed { subscription_id: "abc".to_string(), message: String::new() };
    assert_eq!(
        connection.step(Err(ParseResponseError::EmptyMessage)),
        Step::Report(ParseResponseError::EmptyMessage)
    );
    assert_eq!(connection.step(Ok(closed.clone())), Step::Finish(closed.clone()));
    assert_eq!(connection.step(Ok(closed.clone())), Step::Deliver(closed));
}

#[test]
fn receive_loop_delivers_reports_and_stops_after_closed() {
    let mut connection = subscribed("abc");
    let messages = vec![
        "[\"EOSE\",\"abc\"]".to_string(),
        "this is not a message".to_string(),
        "[\"CLOSED\",\"abc\",\"done\"]".to_string(),
    ];
    let steps = connection.receive_loop(&messages);
    assert_eq!(
        steps,
        vec![
            Step::Deliver(Response::EndOfStoredEvents { subscription_id: "abc".to_string() }),
            Step::Report(ParseResponseError::MalformedJson),
            Step::Finish(Response::Closed {
                subscription_id: "abc".to_string(),
                message: "done".to_string()
            }),
        ]
    );
    assert_eq!(connection.state(), &State::Connected);
    assert_eq!(connection.subscription_id(), None);
}

#[test]
fn receive_loop_leaves_what_follows_closed() {
    let mut connection = subscribed("abc");
    let messages = vec![
        "[\"CLOSED\",\"abc\",\"done\"]".to_string(),
        "[\"NOTICE\",\"late\"]".to_string(),
    ];
    assert_eq!(connection.receive_loop(&messages).len(), 1);
    assert_eq!(connection.state(), &State::Connected);
}

#[test]
fn receive_loop_without_closed_takes_everything() {
    let mut connection = subscribed("abc");
    let messages = vec![
        "[\"NOTICE\",\"one\"]".to_string(),
        "[\"CLOSED\",\"xyz\",\"not ours\"]".to_string(),
        "[]".to_string(),
    ];
    let steps = connection.receive_loop(&messages);
    assert_eq!(steps.len(), 3);
    assert_eq!(steps[2], Step::Report(ParseResponseError::EmptyMessage));
    assert_eq!(connection.state(), &State::Subscribed("abc".to_string()));
    assert!(connection.receive_loop(&vec![]).is_empty());
    assert_eq!(connection.state(), &State::Subscribed("abc".to_string()));
}

#[test]
fn end_of_stream_and_failure_disconnect() {
    let mut connection = subscribed("abc");
    connection.disconnected();
    assert_eq!(connection.state(), &State::Disconnected);
    assert_eq!(connection.subscription_id(), None);
    let mut other = subscribed("abc");
    other.set_read_timeout(Some(5));
    assert_eq!(
        other.failed("broken pipe".to_string()),
        TransportError::Failed("broken pipe".to_string())
    );
    assert_eq!(other.state(), &State::Disconnected);
    assert_eq!(other.read_timeout(), Some(5));
    assert_eq!(other.relay_url(), "wss://relay.example");
}
