//! The life of one connection to a relay: what may be sent in which state, and what
//! each message that arrives means for the subscription.
//!
//! The connection itself is held elsewhere. This module decides: it hands out the text
//! to send and takes in the text that arrived.

use rand::distributions::{Alphanumeric, DistString};
use vstd::prelude::*;

use crate::event::Event;
use crate::request::{filter_views, request_text, Filter, Request, RequestView};
use crate::response::{
    decoded, outcome_view, ParseErrorView, ParseResponseError, Response, ResponseView,
};

verus! {

/// The length of a subscription identifier.
pub const SUBSCRIPTION_ID_LENGTH: usize = 64;

/// Where a connection stands.
#[derive(Clone, Debug, PartialEq, Eq)]
pub enum State {
    /// The transport is not open.
    Disconnected,
    /// The transport is open and no subscription is active.
    Connected,
    /// The transport is open and the subscription with this identifier is active.
    Subscribed(String),
}

/// A state as a mathematical object.
pub enum StateView {
    Disconnected,
    Connected,
    Subscribed(Seq<char>),
}

impl View for State {
    type V = StateView;

    open spec fn view(&self) -> StateView {
        match self {
            State::Disconnected => StateView::Disconnected,
            State::Connected => StateView::Connected,
            State::Subscribed(id) => StateView::Subscribed(id@),
        }
    }
}

/// Why a request could not be made, or an exchange with the relay failed.
#[derive(Clone, Debug, PartialEq, Eq)]
pub enum TransportError {
    /// The transport is not open.
    NotConnected,
    /// A subscription is active, and a connection carries one exchange at a time.
    Busy,
    /// No subscription is active.
    NotSubscribed,
    /// The relay's reply could not be read.
    Protocol(ParseResponseError),
    /// Sending or receiving failed; the connection is unusable. Holds the reason.
    Failed(String),
}

/// What to do with one message that arrived during a subscription.
#[derive(Clone, Debug, PartialEq, Eq)]
pub enum Step {
    /// Hand the response to the caller and go on.
    Deliver(Response),
    /// Tell the caller of the message that could not be read and go on.
    Report(ParseResponseError),
    /// Hand the response to the caller and stop: the relay has closed the subscription.
    Finish(Response),
}

/// A step as a mathematical object.
pub enum StepView {
    Deliver(ResponseView),
    Report(ParseErrorView),
    Finish(ResponseView),
}

impl View for Step {
    type V = StepView;

    open spec fn view(&self) -> StepView {
        match self {
            Step::Deliver(response) => StepView::Deliver(response@),
            Step::Report(error) => StepView::Report(error@),
            Step::Finish(response) => StepView::Finish(response@),
        }
    }
}

/// A subscription that was just opened: its identifier and the text to send for it.
#[derive(Clone, Debug, PartialEq, Eq)]
pub struct Subscription {
    pub id: String,
    pub request: String,
}

/// One connection to a relay.
#[derive(Clone, Debug, PartialEq, Eq)]
pub struct Connection {
    relay_url: String,
    state: State,
    read_timeout: Option<u64>,
}

/// A connection as a mathematical object.
pub struct ConnectionView {
    pub relay_url: Seq<char>,
    pub state: StateView,
    /// How many seconds one read may take, where that is bounded.
    pub read_timeout: Option<u64>,
}

impl View for Connection {
    type V = ConnectionView;

    closed spec fn view(&self) -> ConnectionView {
        ConnectionView {
            relay_url: self.relay_url@,
            state: self.state@,
            read_timeout: self.read_timeout,
        }
    }
}

/// Whether `c` is a letter of either case or a digit, in ASCII.
pub open spec fn is_alphanumeric(c: char) -> bool {
    ('A' <= c <= 'Z') || ('a' <= c <= 'z') || ('0' <= c <= '9')
}

/// Whether `id` has the form of a subscription identifier: 64 ASCII letters and digits.
pub open spec fn is_subscription_id(id: Seq<char>) -> bool {
    &&& id.len() == SUBSCRIPTION_ID_LENGTH
    &&& forall|i: int| 0 <= i < id.len() ==> is_alphanumeric(#[trigger] id[i])
}

/// Whether a reading closes the subscription that `state` holds: a `Closed` response
/// that names it.
pub open spec fn closes(outcome: Result<ResponseView, ParseErrorView>, state: StateView) -> bool {
    match (outcome, state) {
        (Ok(ResponseView::Closed { subscription_id, .. }), StateView::Subscribed(id)) =>
            subscription_id == id,
        _ => false,
    }
}

/// What to do with a reading in `state`: report what could not be read, finish on the
/// response that closes the subscription, deliver every other response.
pub open spec fn step_for(
    outcome: Result<ResponseView, ParseErrorView>,
    state: StateView,
) -> StepView {
    match outcome {
        Ok(response) => if closes(outcome, state) {
            StepView::Finish(response)
        } else {
            StepView::Deliver(response)
        },
        Err(error) => StepView::Report(error),
    }
}

/// The state after a reading: the subscription is gone where the reading closes it, and
/// nothing changes otherwise.
pub open spec fn state_after(
    outcome: Result<ResponseView, ParseErrorView>,
    state: StateView,
) -> StateView {
    if closes(outcome, state) {
        StateView::Connected
    } else {
        state
    }
}

/// How many of `messages` a receive loop in `state` takes: all up to and with the first
/// that closes the subscription, or all of them where none does.
pub open spec fn taken(messages: Seq<Seq<char>>, state: StateView) -> nat
    decreases messages.len(),
{
    if messages.len() == 0 {
        0
    } else if closes(decoded(messages[0]), state) {
        1
    } else {
        1 + taken(messages.drop_first(), state)
    }
}

/// `rand::distributions::DistString::sample_string` of `Alphanumeric` with
/// `rand::thread_rng`: a string of `len` characters, each an ASCII letter or digit.
/// Which ones is left to chance.
#[verifier::external_body]
fn generate_subscription_id(len: usize) -> (id: String)
    ensures
        id@.len() == len,
        forall|i: int| 0 <= i < id@.len() ==> is_alphanumeric(#[trigger] id@[i]),
{
    Alphanumeric.sample_string(&mut rand::thread_rng(), len)
}

impl Connection {
    /// A connection to the relay at `relay_url` whose transport is not open yet.
    pub fn new(relay_url: &str) -> (connection: Connection)
        ensures
            connection@ == (ConnectionView {
                relay_url: relay_url@,
                state: StateView::Disconnected,
                read_timeout: None,
            }),
    {
        Connection {
            relay_url: relay_url.to_owned(),
            state: State::Disconnected,
            read_timeout: None,
        }
    }

    /// The address of the relay.
    pub fn relay_url(&self) -> (url: &String)
        ensures
            url@ == self@.relay_url,
    {
        &self.relay_url
    }

    /// Where the connection stands.
    pub fn state(&self) -> (state: &State)
        ensures
            state@ == self@.state,
    {
        &self.state
    }

    /// The identifier of the active subscription, where there is one.
    pub fn subscription_id(&self) -> (id: Option<&String>)
        ensures
            match self@.state {
                StateView::Subscribed(text) => id matches Some(held) && held@ == text,
                _ => id is None,
            },
    {
        match &self.state {
            State::Subscribed(id) => Some(id),
            _ => None,
        }
    }

    /// How many seconds one read may take, where that is bounded.
    pub fn read_timeout(&self) -> (seconds: Option<u64>)
        ensures
            seconds == self@.read_timeout,
    {
        self.read_timeout
    }

    /// Bounds the time that one read may take, or lifts the bound.
    pub fn set_read_timeout(&mut self, seconds: Option<u64>)
        ensures
            final(self)@ == (ConnectionView { read_timeout: seconds, ..old(self)@ }),
    {
        self.read_timeout = seconds;
    }

    /// The transport has been opened. A connection that was open stays as it is.
    pub fn opened(&mut self)
        ensures
            final(self)@ == (ConnectionView {
                state: if old(self)@.state is Disconnected {
                    StateView::Connected
                } else {
                    old(self)@.state
                },
                ..old(self)@
            }),
    {
        if let State::Disconnected = self.state {
            self.state = State::Connected;
        }
    }

    /// The transport has ended. Any subscription is gone with it.
    pub fn disconnected(&mut self)
        ensures
            final(self)@ == (ConnectionView { state: StateView::Disconnected, ..old(self)@ }),
    {
        self.state = State::Disconnected;
    }

    /// Sending or receiving has failed for `reason`: the connection is unusable from
    /// now on, and the error to hand to the caller is returned.
    pub fn failed(&mut self, reason: String) -> (error: TransportError)
        ensures
            final(self)@ == (ConnectionView { state: StateView::Disconnected, ..old(self)@ }),
            error == TransportError::Failed(reason),
    {
        self.state = State::Disconnected;
        TransportError::Failed(reason)
    }

    /// The text to send to publish `event`: the relay's next message is the reply.
    /// Fails with `NotConnected` while the transport is not open and with `Busy` while
    /// a subscription is active.
    pub fn publish_event(&self, event: Event) -> (text: Result<String, TransportError>)
        ensures
            match self@.state {
                StateView::Disconnected => text matches Err(e) && e == TransportError::NotConnected,
                StateView::Subscribed(_) => text matches Err(e) && e == TransportError::Busy,
                StateView::Connected => text matches Ok(t) && t@ == request_text(
                    RequestView::Publish { event: event@ },
                ),
            },
    {
        match &self.state {
            State::Disconnected => Err(TransportError::NotConnected),
            State::Subscribed(_) => Err(TransportError::Busy),
            State::Connected => Ok((Request::Publish { event }).serialize()),
        }
    }

    /// Reads the relay's reply to a published event from a reading of its text: the
    /// response, or `Protocol` with the reading error.
    pub fn reply(read: Result<Response, ParseResponseError>) -> (reply: Result<
        Response,
        TransportError,
    >)
        ensures
            match read {
                Ok(response) => reply matches Ok(r) && r == response,
                Err(error) => reply matches Err(e) && e == TransportError::Protocol(error),
            },
    {
        match read {
            Ok(response) => Ok(response),
            Err(error) => Err(TransportError::Protocol(error)),
        }
    }

    /// Reads the relay's reply to a published event: the next message, whatever
    /// response it is, or `Protocol` with the reason why it could not be read.
    pub fn publish_reply(&self, text: &str) -> (reply: Result<Response, TransportError>)
        ensures
            match decoded(text@) {
                Ok(response) => reply matches Ok(r) && r@ == response,
                Err(error) => reply matches Err(TransportError::Protocol(e)) && e@ == error,
            },
    {
        Connection::reply(Response::from_str(text))
    }

    /// Opens the subscription `id` for `filters` and gives the text to send for it.
    /// Fails with `NotConnected` while the transport is not open and with `Busy` while
    /// another subscription is active; a failed call changes nothing.
    pub fn subscribe_as(&mut self, id: String, filters: Vec<Filter>) -> (text: Result<
        String,
        TransportError,
    >)
        ensures
            match old(self)@.state {
                StateView::Disconnected => text matches Err(e) && e == TransportError::NotConnected
                    && final(self)@ == old(self)@,
                StateView::Subscribed(_) => text matches Err(e) && e == TransportError::Busy
                    && final(self)@ == old(self)@,
                StateView::Connected => text matches Ok(t) && t@ == request_text(
                    RequestView::Subscribe { subscription_id: id@, filters: filter_views(filters@) },
                ) && final(self)@ == (ConnectionView {
                    state: StateView::Subscribed(id@),
                    ..old(self)@
                }),
            },
    {
        match &self.state {
            State::Disconnected => Err(TransportError::NotConnected),
            State::Subscribed(_) => Err(TransportError::Busy),
            State::Connected => {
                let request = Request::Subscribe { subscription_id: id.clone(), filters };
                let text = request.serialize();
                self.state = State::Subscribed(id);
                Ok(text)
            },
        }
    }

    /// Opens a subscription for `filters` under a fresh random identifier of 64 ASCII
    /// letters and digits, and gives the identifier and the text to send.
    /// Fails with `NotConnected` while the transport is not open and with `Busy` while
    /// another subscription is active; a failed call changes nothing.
    pub fn subscribe(&mut self, filters: Vec<Filter>) -> (opened: Result<
        Subscription,
        TransportError,
    >)
        ensures
            match old(self)@.state {
                StateView::Disconnected => opened matches Err(e) && e
                    == TransportError::NotConnected && final(self)@ == old(self)@,
                StateView::Subscribed(_) => opened matches Err(e) && e == TransportError::Busy
                    && final(self)@ == old(self)@,
                StateView::Connected => opened matches Ok(s) && is_subscription_id(s.id@)
                    && s.request@ == request_text(
                    RequestView::Subscribe {
                        subscription_id: s.id@,
                        filters: filter_views(filters@),
                    },
                ) && final(self)@ == (ConnectionView {
                    state: StateView::Subscribed(s.id@),
                    ..old(self)@
                }),
            },
    {
        let id = generate_subscription_id(SUBSCRIPTION_ID_LENGTH);
        match self.subscribe_as(id.clone(), filters) {
            Ok(request) => Ok(Subscription { id, request }),
            Err(error) => Err(error),
        }
    }

    /// Decides what to do with one reading of a message that arrived: a response that
    /// closes the active subscription ends it, and nothing else changes the state.
    pub fn step(&mut self, read: Result<Response, ParseResponseError>) -> (step: Step)
        ensures
            step@ == step_for(outcome_view(read), old(self)@.state),
            final(self)@ == (ConnectionView {
                state: state_after(outcome_view(read), old(self)@.state),
                ..old(self)@
            }),
    {
        match read {
            Ok(response) => {
                let closing = match (&response, &self.state) {
                    (Response::Closed { subscription_id, .. }, State::Subscribed(id)) =>
                        *subscription_id == *id,
                    _ => false,
                };
                if closing {
                    self.state = State::Connected;
                    Step::Finish(response)
                } else {
                    Step::Deliver(response)
                }
            },
            Err(error) => Step::Report(error),
        }
    }

    /// Decides what to do with the text of one message that arrived. A message that
    /// cannot be read is reported and changes nothing.
    pub fn receive(&mut self, text: &str) -> (step: Step)
        ensures
            step@ == step_for(decoded(text@), old(self)@.state),
            final(self)@ == (ConnectionView {
                state: state_after(decoded(text@), old(self)@.state),
                ..old(self)@
            }),
    {
        self.step(Response::from_str(text))
    }

    /// Ends the active subscription and gives the text to send for that; no answer is
    /// waited for. Fails with `NotConnected` while the transport is not open and with
    /// `NotSubscribed` while no subscription is active; a failed call changes nothing.
    pub fn close(&mut self) -> (text: Result<String, TransportError>)
        ensures
            match old(self)@.state {
                StateView::Disconnected => text matches Err(e) && e == TransportError::NotConnected
                    && final(self)@ == old(self)@,
                StateView::Connected => text matches Err(e) && e == TransportError::NotSubscribed
                    && final(self)@ == old(self)@,
                StateView::Subscribed(id) => text matches Ok(t) && t@ == request_text(
                    RequestView::Unsubscribe { subscription_id: id },
                ) && final(self)@ == (ConnectionView {
                    state: StateView::Connected,
                    ..old(self)@
                }),
            },
    {
        match &self.state {
            State::Disconnected => Err(TransportError::NotConnected),
            State::Connected => Err(TransportError::NotSubscribed),
            State::Subscribed(id) => {
                let request = Request::Unsubscribe { subscription_id: id.clone() };
                let text = request.serialize();
                self.state = State::Connected;
                Ok(text)
            },
        }
    }

    /// Runs the receive loop over messages that have arrived, in order: each is
    /// delivered or reported, and the loop stops behind the first response that closes
    /// the active subscription. A message that cannot be read does not stop it.
    pub fn receive_loop(&mut self, messages: &Vec<String>) -> (steps: Vec<Step>)
        ensures
            steps@.len() == taken(messages.deep_view(), old(self)@.state),
            forall|i: int|
                0 <= i < steps@.len() ==> (#[trigger] steps@[i])@ == step_for(
                    decoded(messages@[i]@),
                    old(self)@.state,
                ),
            final(self)@ == (ConnectionView {
                state: if steps@.len() == 0 {
                    old(self)@.state
                } else {
                    state_after(decoded(messages@[steps@.len() - 1]@), old(self)@.state)
                },
                ..old(self)@
            }),
    {
        let ghost all = messages.deep_view();
        let ghost start = self@.state;
        let mut steps: Vec<Step> = Vec::new();
        let mut i: usize = 0;
        assert(all.skip(0) =~= all);
        while i < messages.len()
            invariant
                0 <= i <= messages.len(),
                all == messages.deep_view(),
                start == old(self)@.state,
                self@ == old(self)@,
                steps@.len() == i,
                taken(all, start) == i + taken(all.skip(i as int), start),
                forall|k: int|
                    0 <= k < i ==> (#[trigger] steps@[k])@ == step_for(
                        decoded(messages@[k]@),
                        start,
                    ),
                i > 0 ==> !closes(decoded(messages@[i - 1]@), start),
            decreases messages.len() - i,
        {
            let ghost rest = all.skip(i as int);
            assert(rest[0] == messages@[i as int]@);
            assert(rest.drop_first() =~= all.skip(i + 1));
            let step = self.receive(messages[i].as_str());
            let done = match &step {
                Step::Finish(_) => true,
                _ => false,
            };
            steps.push(step);
            i += 1;
            if done {
                return steps;
            }
        }
        steps
    }
}

/// A message that cannot be read is reported and ends nothing: the state stays as it
/// was, whatever it was.
pub proof fn lemma_unreadable_message_goes_on(error: ParseErrorView, state: StateView)
    ensures
        step_for(Err(error), state) == StepView::Report(error),
        state_after(Err(error), state) == state,
{
}

/// The receive loop takes the messages up to and with the first that closes the
/// subscription, and no more.
pub proof fn lemma_receive_loop_stops_at_closed(
    messages: Seq<Seq<char>>,
    state: StateView,
    first: int,
)
    requires
        0 <= first < messages.len(),
        closes(decoded(messages[first]), state),
        forall|k: int| 0 <= k < first ==> !closes(decoded(#[trigger] messages[k]), state),
    ensures
        taken(messages, state) == first + 1,
    decreases first,
{
    if first > 0 {
        let rest = messages.drop_first();
        assert(!closes(decoded(messages[0]), state));
        assert(rest[first - 1] == messages[first]);
        assert forall|k: int| 0 <= k < first - 1 implies !closes(
            decoded(#[trigger] rest[k]),
            state,
        ) by {
            assert(rest[k] == messages[k + 1]);
        }
        lemma_receive_loop_stops_at_closed(rest, state, first - 1);
    }
}

/// Where no message closes the subscription, the receive loop takes them all.
pub proof fn lemma_receive_loop_takes_all(messages: Seq<Seq<char>>, state: StateView)
    requires
        forall|k: int| 0 <= k < messages.len() ==> !closes(decoded(#[trigger] messages[k]), state),
    ensures
        taken(messages, state) == messages.len(),
    decreases messages.len(),
{
    if messages.len() > 0 {
        let rest = messages.drop_first();
        assert(!closes(decoded(messages[0]), state));
        assert forall|k: int| 0 <= k < rest.len() implies !closes(
            decoded(#[trigger] rest[k]),
            state,
        ) by {
            assert(rest[k] == messages[k + 1]);
        }
        lemma_receive_loop_takes_all(rest, state);
    }
}

} // verus!
