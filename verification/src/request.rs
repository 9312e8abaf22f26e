//! What a client sends to a relay: filters and the three requests, with their wire text.

use vstd::prelude::*;
use vstd::string::StringExecFns;

use crate::event::{
    event_json, event_of_json, lemma_event_json_round_trip, strings_json, Event, EventView,
};
use crate::json::{json_text, Json, JsonValue};
use crate::keys::Parity;
use crate::response::{response_of_json, ParseErrorView, ResponseView};

verus! {

/// A query: the events wanted, by identifier, author, kind, tag value and time, and how
/// many of them at most. An empty list leaves its dimension open.
#[derive(Clone, Debug, PartialEq, Eq)]
pub struct Filter {
    ids: Vec<String>,
    authors: Vec<String>,
    kinds: Vec<u64>,
    tag_values: Vec<String>,
    since: u64,
    until: u64,
    limit: u64,
}

/// A filter as a mathematical object.
pub struct FilterView {
    pub ids: Seq<Seq<char>>,
    pub authors: Seq<Seq<char>>,
    pub kinds: Seq<u64>,
    pub tag_values: Seq<Seq<char>>,
    pub since: u64,
    pub until: u64,
    pub limit: u64,
}

impl View for Filter {
    type V = FilterView;

    closed spec fn view(&self) -> FilterView {
        FilterView {
            ids: self.ids.deep_view(),
            authors: self.authors.deep_view(),
            kinds: self.kinds@,
            tag_values: self.tag_values.deep_view(),
            since: self.since,
            until: self.until,
            limit: self.limit,
        }
    }
}

/// A message from client to relay.
#[derive(Clone, Debug, PartialEq, Eq)]
pub enum Request {
    /// Publishes an event.
    Publish { event: Event },
    /// Opens a subscription for the events that any of the filters selects.
    Subscribe { subscription_id: String, filters: Vec<Filter> },
    /// Ends a subscription.
    Unsubscribe { subscription_id: String },
}

/// A request as a mathematical object.
pub enum RequestView {
    Publish { event: EventView },
    Subscribe { subscription_id: Seq<char>, filters: Seq<FilterView> },
    Unsubscribe { subscription_id: Seq<char> },
}

/// The filters that a list of filters in memory stands for.
pub open spec fn filter_views(filters: Seq<Filter>) -> Seq<FilterView> {
    Seq::new(filters.len(), |i: int| filters[i]@)
}

impl View for Request {
    type V = RequestView;

    open spec fn view(&self) -> RequestView {
        match self {
            Request::Publish { event } => RequestView::Publish { event: event@ },
            Request::Subscribe { subscription_id, filters } => RequestView::Subscribe {
                subscription_id: subscription_id@,
                filters: filter_views(filters@),
            },
            Request::Unsubscribe { subscription_id } => RequestView::Unsubscribe {
                subscription_id: subscription_id@,
            },
        }
    }
}

/// A list of numbers as a JSON array.
pub open spec fn numbers_json(numbers: Seq<u64>) -> JsonValue {
    JsonValue::Array(Seq::new(numbers.len(), |i: int| JsonValue::Uint(numbers[i])))
}

/// A filter as the object that travels: `ids`, `authors`, `kinds`, `tag_values`,
/// `since`, `until`, `limit`, in this order, every member always there.
pub open spec fn filter_json(f: FilterView) -> JsonValue {
    JsonValue::Object(
        seq![
            ("ids"@, strings_json(f.ids)),
            ("authors"@, strings_json(f.authors)),
            ("kinds"@, numbers_json(f.kinds)),
            ("tag_values"@, strings_json(f.tag_values)),
            ("since"@, JsonValue::Uint(f.since)),
            ("until"@, JsonValue::Uint(f.until)),
            ("limit"@, JsonValue::Uint(f.limit)),
        ],
    )
}

/// A request as the array that travels: the word `EVENT` and the event; the word `REQ`,
/// the subscription and the filters in the order given; the word `CLOSE` and the
/// subscription.
pub open spec fn request_json(r: RequestView) -> JsonValue {
    match r {
        RequestView::Publish { event } => JsonValue::Array(
            seq![JsonValue::Str("EVENT"@), event_json(event)],
        ),
        RequestView::Subscribe { subscription_id, filters } => JsonValue::Array(
            seq![JsonValue::Str("REQ"@), JsonValue::Str(subscription_id)] + Seq::new(
                filters.len(),
                |i: int| filter_json(filters[i]),
            ),
        ),
        RequestView::Unsubscribe { subscription_id } => JsonValue::Array(
            seq![JsonValue::Str("CLOSE"@), JsonValue::Str(subscription_id)],
        ),
    }
}

/// The wire text of a request: the compact text of its array.
pub open spec fn request_text(r: RequestView) -> Seq<char> {
    json_text(request_json(r))
}

/// Builds the JSON array of a list of numbers.
fn numbers_to_json(numbers: &Vec<u64>) -> (j: Json)
    ensures
        j@ == numbers_json(numbers@),
{
    let mut items: Vec<Json> = Vec::new();
    let mut i: usize = 0;
    while i < numbers.len()
        invariant
            0 <= i <= numbers.len(),
            items@.len() == i,
            forall|k: int| 0 <= k < i ==> (#[trigger] items@[k])@ == JsonValue::Uint(numbers@[k]),
        decreases numbers.len() - i,
    {
        items.push(Json::Uint(numbers[i]));
        i += 1;
    }
    let j = Json::Array(items);
    assert(j@->Array_0 =~= numbers_json(numbers@)->Array_0);
    j
}

impl Filter {
    /// A filter with the given constraints.
    pub fn new(
        ids: Vec<String>,
        authors: Vec<String>,
        kinds: Vec<u64>,
        tag_values: Vec<String>,
        since: u64,
        until: u64,
        limit: u64,
    ) -> (filter: Self)
        ensures
            filter@ == (FilterView {
                ids: ids.deep_view(),
                authors: authors.deep_view(),
                kinds: kinds@,
                tag_values: tag_values.deep_view(),
                since,
                until,
                limit,
            }),
    {
        Self { ids, authors, kinds, tag_values, since, until, limit }
    }

    /// The filter as the object that travels.
    pub fn to_json(&self) -> (j: Json)
        ensures
            j@ == filter_json(self@),
    {
        let mut members: Vec<(String, Json)> = Vec::new();
        members.push((String::from_str("ids"), crate::event::strings_to_json(&self.ids)));
        members.push((String::from_str("authors"), crate::event::strings_to_json(&self.authors)));
        members.push((String::from_str("kinds"), numbers_to_json(&self.kinds)));
        members.push(
            (String::from_str("tag_values"), crate::event::strings_to_json(&self.tag_values)),
        );
        members.push((String::from_str("since"), Json::Uint(self.since)));
        members.push((String::from_str("until"), Json::Uint(self.until)));
        members.push((String::from_str("limit"), Json::Uint(self.limit)));
        let j = Json::Object(members);
        proof {
            let held = j@->Object_0;
            assert(held.len() == 7);
            assert(held[0] == (members@[0].0@, members@[0].1@));
            assert(held[1] == (members@[1].0@, members@[1].1@));
            assert(held[2] == (members@[2].0@, members@[2].1@));
            assert(held[3] == (members@[3].0@, members@[3].1@));
            assert(held[4] == (members@[4].0@, members@[4].1@));
            assert(held[5] == (members@[5].0@, members@[5].1@));
            assert(held[6] == (members@[6].0@, members@[6].1@));
            assert(held =~= filter_json(self@)->Object_0);
        }
        j
    }
}

impl Request {
    /// The request as the array that travels.
    pub fn to_json(&self) -> (j: Json)
        ensures
            j@ == request_json(self@),
    {
        let mut items: Vec<Json> = Vec::new();
        match self {
            Request::Publish { event } => {
                items.push(Json::Str(String::from_str("EVENT")));
                items.push(event.to_json());
            },
            Request::Subscribe { subscription_id, filters } => {
                items.push(Json::Str(String::from_str("REQ")));
                items.push(Json::Str(subscription_id.clone()));
                let mut i: usize = 0;
                while i < filters.len()
                    invariant
                        0 <= i <= filters.len(),
                        items@.len() == 2 + i,
                        items@[0]@ == JsonValue::Str("REQ"@),
                        items@[1]@ == JsonValue::Str(subscription_id@),
                        forall|k: int|
                            0 <= k < i ==> (#[trigger] items@[2 + k])@ == filter_json(filters@[k]@),
                    decreases filters.len() - i,
                {
                    items.push(filters[i].to_json());
                    i += 1;
                }
            },
            Request::Unsubscribe { subscription_id } => {
                items.push(Json::Str(String::from_str("CLOSE")));
                items.push(Json::Str(subscription_id.clone()));
            },
        }
        let j = Json::Array(items);
        proof {
            let held = j@->Array_0;
            let wanted = request_json(self@)->Array_0;
            assert(held.len() == wanted.len());
            assert forall|k: int| 0 <= k < held.len() implies held[k] == wanted[k] by {
                assert(held[k] == items@[k]@);
                if k >= 2 {
                    assert(items@[2 + (k - 2)]@ == held[k]);
                }
            }
            assert(held =~= wanted);
        }
        j
    }

    /// The wire text of the request.
    pub fn serialize(&self) -> (text: String)
        ensures
            text@ == request_text(self@),
    {
        self.to_json().to_text()
    }
}

/// The event of a publish request is read back from the request as it was written, but
/// for the parity of the author's key, which does not travel and is read back as even.
pub proof fn lemma_published_event_round_trip(e: Event)
    ensures
        request_json(RequestView::Publish { event: e@ }) matches JsonValue::Array(items)
            && items.len() == 2 && items[0] == JsonValue::Str("EVENT"@) && event_of_json(
            items[1],
        ) == Some(EventView { parity: Parity::Even, ..e@ }),
{
    lemma_event_json_round_trip(e);
}

/// A publish request is no response: a relay's `EVENT` message names a subscription
/// before the event, so the text of a request read as a response is malformed.
pub proof fn lemma_publish_request_is_no_response(e: Event)
    ensures
        response_of_json(request_json(RequestView::Publish { event: e@ })) == Err::<
            ResponseView,
            ParseErrorView,
        >(ParseErrorView::UnknownOrMalformedResponse("EVENT"@)),
{
}

} // verus!
