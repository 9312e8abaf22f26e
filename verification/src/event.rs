//! Events: signed, timestamped records authored by a public key.

use std::time::{SystemTime, UNIX_EPOCH};
use vstd::prelude::*;
use vstd::string::StringExecFns;

use crate::base16::{
    decode_hex, encode_hex, hex_bytes, hex_text, is_hex_text, same_bytes, to_array,
};
use crate::json::{field, json_text, Json, JsonValue};
use crate::keys::{
    check_signature, digest_of, public_key_parsed, schnorr_valid,
    read_secret_key, secret_key_public, sha256_digest, sign_digest, Parity, PubKeyWrapper,
};

verus! {

/// Why an event could not be made or signed.
#[derive(Clone, Copy, Debug, PartialEq, Eq, Structural)]
pub enum SigningError {
    /// The text given as a key encodes no key.
    InvalidKey,
    /// The event already carries an identifier and a signature.
    AlreadySigned,
    /// The secret key does not belong to the event's author.
    KeyMismatch,
}

/// The identifier and signature of a finalized event, both in hexadecimal.
#[derive(Clone, Debug, PartialEq, Eq)]
pub struct Seal {
    pub id: String,
    pub sig: String,
}

/// One protocol message. A draft has neither identifier nor signature; a finalized
/// event has both.
#[derive(Clone, Debug, PartialEq, Eq)]
pub struct Event {
    seal: Option<Seal>,
    pubkey: PubKeyWrapper,
    kind: u64,
    content: String,
    created_at: u64,
    tags: Vec<Vec<String>>,
}

/// An event as a mathematical object.
pub struct EventView {
    pub id: Option<Seq<char>>,
    pub sig: Option<Seq<char>>,
    /// The x coordinate of the author's key.
    pub pubkey: Seq<u8>,
    pub parity: Parity,
    pub kind: u64,
    pub content: Seq<char>,
    pub created_at: u64,
    pub tags: Seq<Seq<Seq<char>>>,
}

impl View for Event {
    type V = EventView;

    closed spec fn view(&self) -> EventView {
        EventView {
            id: match self.seal {
                Some(seal) => Some(seal.id@),
                None => None,
            },
            sig: match self.seal {
                Some(seal) => Some(seal.sig@),
                None => None,
            },
            pubkey: self.pubkey.key@,
            parity: self.pubkey.parity,
            kind: self.kind,
            content: self.content@,
            created_at: self.created_at,
            tags: self.tags.deep_view(),
        }
    }
}

/// A draft with the given fields and no tags.
pub open spec fn draft(
    pubkey: Seq<u8>,
    parity: Parity,
    kind: u64,
    content: Seq<char>,
    created_at: u64,
) -> EventView {
    EventView {
        id: None,
        sig: None,
        pubkey,
        parity,
        kind,
        content,
        created_at,
        tags: Seq::empty(),
    }
}

/// One tag: the key, the value and, where there is one, the relay hint.
pub open spec fn tag_entry(key: Seq<char>, value: Seq<char>, relay: Option<Seq<char>>) -> Seq<
    Seq<char>,
> {
    match relay {
        Some(url) => seq![key, value, url],
        None => seq![key, value],
    }
}

/// A list of strings as a JSON array of strings.
pub open spec fn strings_json(strings: Seq<Seq<char>>) -> JsonValue {
    JsonValue::Array(Seq::new(strings.len(), |i: int| JsonValue::Str(strings[i])))
}

/// The tags as a JSON array with one array of strings for each tag.
pub open spec fn tags_json(tags: Seq<Seq<Seq<char>>>) -> JsonValue {
    JsonValue::Array(Seq::new(tags.len(), |i: int| strings_json(tags[i])))
}

/// The array that an event's identifier is derived from: zero, the author's key in
/// hexadecimal, the time, the kind, the tags, the content.
pub open spec fn canonical_json(e: EventView) -> JsonValue {
    JsonValue::Array(
        seq![
            JsonValue::Uint(0),
            JsonValue::Str(hex_text(e.pubkey)),
            JsonValue::Uint(e.created_at),
            JsonValue::Uint(e.kind),
            tags_json(e.tags),
            JsonValue::Str(e.content),
        ],
    )
}

/// The canonical encoding of an event as text: the compact text of its canonical array.
pub open spec fn canonical_text(e: EventView) -> Seq<char> {
    json_text(canonical_json(e))
}

/// The canonical encoding of an event: its canonical text in UTF-8.
pub open spec fn canonical_encoding(e: EventView) -> Seq<u8> {
    vstd::utf8::encode_utf8(canonical_text(e))
}

/// The SHA-256 digest of an event's canonical encoding.
pub open spec fn event_digest(e: EventView) -> Seq<u8> {
    sha256_digest(canonical_encoding(e))
}

/// The identifier of an event: its digest in lower-case hexadecimal.
pub open spec fn event_id(e: EventView) -> Seq<char> {
    hex_text(event_digest(e))
}

/// `e` finalized with `signature`: the identifier derived from its canonical encoding,
/// the signature in hexadecimal, every other field as it was.
pub open spec fn sealed(e: EventView, signature: Seq<u8>) -> EventView {
    EventView { id: Some(event_id(e)), sig: Some(hex_text(signature)), ..e }
}

/// What signing `e` with the secret key that `secret` encodes comes to, before any
/// signature is made.
pub open spec fn setup_outcome(e: EventView, secret: Seq<char>) -> Result<(), SigningError> {
    if e.sig is Some {
        Err(SigningError::AlreadySigned)
    } else {
        match secret_key_public(secret) {
            None => Err(SigningError::InvalidKey),
            Some(x) => if x == e.pubkey {
                Ok(())
            } else {
                Err(SigningError::KeyMismatch)
            },
        }
    }
}

/// Whether `e` carries the identifier derived from its canonical encoding and a
/// signature of its digest that is valid under the key with x coordinate `key`.
pub open spec fn verifies(e: EventView, key: Seq<u8>) -> bool {
    &&& e.id == Some(event_id(e))
    &&& e.sig matches Some(s) && is_hex_text(s) && s.len() == 128 && schnorr_valid(
        hex_bytes(s),
        event_digest(e),
        key,
    )
}

/// A string where there is one, `null` where there is none.
pub open spec fn text_or_null(text: Option<Seq<char>>) -> JsonValue {
    match text {
        Some(t) => JsonValue::Str(t),
        None => JsonValue::Null,
    }
}

/// An event as the object that travels: `id`, `sig`, `pubkey`, `kind`, `content`,
/// `created_at`, `tags`, in this order.
pub open spec fn event_json(e: EventView) -> JsonValue {
    JsonValue::Object(
        seq![
            ("id"@, text_or_null(e.id)),
            ("sig"@, text_or_null(e.sig)),
            ("pubkey"@, JsonValue::Str(hex_text(e.pubkey))),
            ("kind"@, JsonValue::Uint(e.kind)),
            ("content"@, JsonValue::Str(e.content)),
            ("created_at"@, JsonValue::Uint(e.created_at)),
            ("tags"@, tags_json(e.tags)),
        ],
    )
}

/// The strings of a JSON array of strings; `None` for any other value.
pub open spec fn strings_of_json(v: JsonValue) -> Option<Seq<Seq<char>>> {
    match v {
        JsonValue::Array(items) => if forall|i: int|
            0 <= i < items.len() ==> (#[trigger] items[i]) is Str {
            Some(Seq::new(items.len(), |i: int| items[i]->Str_0))
        } else {
            None
        },
        _ => None,
    }
}

/// The tags of a JSON array of arrays of strings; `None` for any other value.
pub open spec fn tags_of_json(v: JsonValue) -> Option<Seq<Seq<Seq<char>>>> {
    match v {
        JsonValue::Array(items) => if forall|i: int|
            0 <= i < items.len() ==> (#[trigger] strings_of_json(items[i])) is Some {
            Some(Seq::new(items.len(), |i: int| strings_of_json(items[i])->0))
        } else {
            None
        },
        _ => None,
    }
}

/// The identifier and signature that the members `id` and `sig` give: both strings, or
/// both `null` for a draft; `None` for anything else.
pub open spec fn seal_of_json(id: Option<JsonValue>, sig: Option<JsonValue>) -> Option<
    (Option<Seq<char>>, Option<Seq<char>>),
> {
    match (id, sig) {
        (Some(JsonValue::Str(i)), Some(JsonValue::Str(s))) => Some((Some(i), Some(s))),
        (Some(JsonValue::Null), Some(JsonValue::Null)) => Some((None, None)),
        _ => None,
    }
}

/// The event that an object describes. All seven members must be there, each of its
/// type: `id` and `sig` both strings or both `null`, `pubkey` 64 hexadecimal digits,
/// `kind` and `created_at` unsigned integers, `content` a string, `tags` an array of
/// arrays of strings. The key's parity does not travel: it is read back as even.
pub open spec fn event_of_json(v: JsonValue) -> Option<EventView> {
    match (
        seal_of_json(field(v, "id"@), field(v, "sig"@)),
        field(v, "pubkey"@),
        field(v, "kind"@),
        field(v, "content"@),
        field(v, "created_at"@),
        field(v, "tags"@),
    ) {
        (
            Some((id, sig)),
            Some(JsonValue::Str(key)),
            Some(JsonValue::Uint(kind)),
            Some(JsonValue::Str(content)),
            Some(JsonValue::Uint(created_at)),
            Some(tags),
        ) => if is_hex_text(key) && key.len() == 64 && tags_of_json(tags) is Some {
            Some(
                EventView {
                    id,
                    sig,
                    pubkey: hex_bytes(key),
                    parity: Parity::Even,
                    kind,
                    content,
                    created_at,
                    tags: tags_of_json(tags)->0,
                },
            )
        } else {
            None
        },
        _ => None,
    }
}

/// `std::time::SystemTime::now` measured from `UNIX_EPOCH` in whole seconds; zero where
/// the clock stands before the epoch. Nothing is said of the result: it is the time.
#[verifier::external_body]
fn unix_time() -> u64 {
    SystemTime::now().duration_since(UNIX_EPOCH).map_or(0, |elapsed| elapsed.as_secs())
}

/// Builds the JSON array of a list of strings.
pub(crate) fn strings_to_json(strings: &Vec<String>) -> (j: Json)
    ensures
        j@ == strings_json(strings.deep_view()),
{
    let mut items: Vec<Json> = Vec::new();
    let mut i: usize = 0;
    while i < strings.len()
        invariant
            0 <= i <= strings.len(),
            items@.len() == i,
            forall|k: int| 0 <= k < i ==> (#[trigger] items@[k])@ == JsonValue::Str(strings@[k]@),
        decreases strings.len() - i,
    {
        items.push(Json::Str(strings[i].clone()));
        i += 1;
    }
    let j = Json::Array(items);
    assert(j@->Array_0 =~= strings_json(strings.deep_view())->Array_0);
    j
}

/// Builds the JSON array of the tags.
fn tags_to_json(tags: &Vec<Vec<String>>) -> (j: Json)
    ensures
        j@ == tags_json(tags.deep_view()),
{
    let mut items: Vec<Json> = Vec::new();
    let mut i: usize = 0;
    while i < tags.len()
        invariant
            0 <= i <= tags.len(),
            items@.len() == i,
            forall|k: int|
                0 <= k < i ==> (#[trigger] items@[k])@ == strings_json(tags@[k].deep_view()),
        decreases tags.len() - i,
    {
        items.push(strings_to_json(&tags[i]));
        i += 1;
    }
    let j = Json::Array(items);
    assert(j@->Array_0 =~= tags_json(tags.deep_view())->Array_0);
    j
}

/// Reads a JSON array of strings.
fn strings_from_json(value: &Json) -> (read: Option<Vec<String>>)
    ensures
        match strings_of_json(value@) {
            Some(strings) => read matches Some(list) && list.deep_view() == strings,
            None => read is None,
        },
{
    match value {
        Json::Array(items) => {
            let ghost held = value@->Array_0;
            let mut list: Vec<String> = Vec::new();
            let mut i: usize = 0;
            while i < items.len()
                invariant
                    0 <= i <= items.len(),
                    value@ == JsonValue::Array(held),
                    held == crate::json::item_values(items@),
                    list@.len() == i,
                    forall|k: int| 0 <= k < i ==> (#[trigger] held[k]) is Str,
                    forall|k: int| 0 <= k < i ==> (#[trigger] list@[k])@ == held[k]->Str_0,
                decreases items.len() - i,
            {
                assert(held[i as int] == items@[i as int]@);
                match &items[i] {
                    Json::Str(s) => {
                        list.push(s.clone());
                    },
                    _ => {
                        assert(!(held[i as int] is Str));
                        return None;
                    },
                }
                i += 1;
            }
            assert(list.deep_view() =~= strings_of_json(value@)->0);
            Some(list)
        },
        _ => None,
    }
}

/// Reads a JSON array of arrays of strings.
fn tags_from_json(value: &Json) -> (read: Option<Vec<Vec<String>>>)
    ensures
        match tags_of_json(value@) {
            Some(tags) => read matches Some(list) && list.deep_view() == tags,
            None => read is None,
        },
{
    match value {
        Json::Array(items) => {
            let ghost held = value@->Array_0;
            let mut list: Vec<Vec<String>> = Vec::new();
            let mut i: usize = 0;
            while i < items.len()
                invariant
                    0 <= i <= items.len(),
                    value@ == JsonValue::Array(held),
                    held == crate::json::item_values(items@),
                    list@.len() == i,
                    forall|k: int| 0 <= k < i ==> (#[trigger] strings_of_json(held[k])) is Some,
                    forall|k: int|
                        0 <= k < i ==> (#[trigger] list@[k]).deep_view() == strings_of_json(
                            held[k],
                        )->0,
                decreases items.len() - i,
            {
                assert(held[i as int] == items@[i as int]@);
                match strings_from_json(&items[i]) {
                    Some(strings) => {
                        list.push(strings);
                    },
                    None => {
                        assert(!(strings_of_json(held[i as int]) is Some));
                        return None;
                    },
                }
                i += 1;
            }
            assert(list.deep_view() =~= tags_of_json(value@)->0);
            Some(list)
        },
        _ => None,
    }
}

impl Event {
    /// An event is a draft or finalized: it has an identifier exactly when it has a
    /// signature.
    pub proof fn lemma_id_with_sig(self)
        ensures
            self@.id.is_some() == self@.sig.is_some(),
            self@.pubkey.len() == 32,
    {
    }

    /// A draft by the author `pubkey`, made at `created_at`, without tags.
    pub fn with_key(pubkey: PubKeyWrapper, kind: u64, content: String, created_at: u64) -> (event:
        Event)
        ensures
            event@ == draft(pubkey.key@, pubkey.parity, kind, content@, created_at),
    {
        let event = Event { seal: None, pubkey, kind, content, created_at, tags: Vec::new() };
        assert(event.tags.deep_view() =~= Seq::empty());
        event
    }

    /// A draft by the author whose public key `pubkey` encodes, made at `created_at`.
    /// Fails with `InvalidKey` where `pubkey` encodes no public key.
    pub fn new_at(pubkey: &str, kind: u64, content: String, created_at: u64) -> (made: Result<
        Event,
        SigningError,
    >)
        ensures
            match public_key_parsed(pubkey@) {
                Some((x, odd)) => made matches Ok(event) && event@ == draft(
                    x,
                    if odd {
                        Parity::Odd
                    } else {
                        Parity::Even
                    },
                    kind,
                    content@,
                    created_at,
                ),
                None => made matches Err(e) && e == SigningError::InvalidKey,
            },
    {
        match PubKeyWrapper::from_str(pubkey) {
            Some(key) => Ok(Event::with_key(key, kind, content, created_at)),
            None => Err(SigningError::InvalidKey),
        }
    }

    /// A draft by the author whose public key `pubkey` encodes, made now.
    /// Fails with `InvalidKey` where `pubkey` encodes no public key.
    pub fn new(pubkey: &str, kind: u64, content: String) -> (made: Result<Event, SigningError>)
        ensures
            match public_key_parsed(pubkey@) {
                Some((x, odd)) => made matches Ok(event) && event@ == draft(
                    x,
                    if odd {
                        Parity::Odd
                    } else {
                        Parity::Even
                    },
                    kind,
                    content@,
                    event@.created_at,
                ),
                None => made matches Err(e) && e == SigningError::InvalidKey,
            },
    {
        Event::new_at(pubkey, kind, content, unix_time())
    }

    /// Appends a tag. The event is a draft afterwards: a tag added to a finalized event
    /// takes its identifier and signature away.
    pub fn add_tag(&mut self, tag_key: &str, tag_value: &str, relay_url: Option<&str>)
        ensures
            final(self)@ == (EventView {
                id: None,
                sig: None,
                tags: old(self)@.tags.push(
                    tag_entry(
                        tag_key@,
                        tag_value@,
                        match relay_url {
                            Some(url) => Some(url@),
                            None => None,
                        },
                    ),
                ),
                ..old(self)@
            }),
    {
        let mut entry: Vec<String> = Vec::new();
        entry.push(String::from_str(tag_key));
        entry.push(String::from_str(tag_value));
        match relay_url {
            Some(url) => {
                entry.push(String::from_str(url));
            },
            None => {},
        }
        assert(entry.deep_view() =~= tag_entry(
            tag_key@,
            tag_value@,
            match relay_url {
                Some(url) => Some(url@),
                None => None,
            },
        ));
        self.tags.push(entry);
        self.seal = None;
        assert(self.tags.deep_view() =~= old(self).tags.deep_view().push(entry.deep_view()));
    }

    /// The array that the identifier is derived from.
    pub fn canonical_value(&self) -> (j: Json)
        ensures
            j@ == canonical_json(self@),
    {
        let mut items: Vec<Json> = Vec::new();
        items.push(Json::Uint(0));
        items.push(Json::Str(self.pubkey.serialize()));
        items.push(Json::Uint(self.created_at));
        items.push(Json::Uint(self.kind));
        items.push(tags_to_json(&self.tags));
        items.push(Json::Str(self.content.clone()));
        let j = Json::Array(items);
        proof {
            let held = j@->Array_0;
            let wanted = canonical_json(self@)->Array_0;
            assert(held.len() == 6);
            assert(held[0] == items@[0]@);
            assert(held[1] == items@[1]@);
            assert(held[2] == items@[2]@);
            assert(held[3] == items@[3]@);
            assert(held[4] == items@[4]@);
            assert(held[5] == items@[5]@);
            assert(held =~= wanted);
        }
        j
    }

    /// The canonical encoding as text.
    pub fn serialize_for_id(&self) -> (text: String)
        ensures
            text@ == canonical_text(self@),
    {
        self.canonical_value().to_text()
    }

    /// The canonical encoding: the bytes that the identifier is the digest of.
    pub fn canonical_bytes(&self) -> (bytes: Vec<u8>)
        ensures
            bytes@ == canonical_encoding(self@),
    {
        let text = self.serialize_for_id();
        vstd::slice::slice_to_vec(text.as_str().as_bytes())
    }

    /// The identifier that the event's present fields call for.
    pub fn generate_id(&self) -> (id: String)
        ensures
            id@ == event_id(self@),
    {
        let bytes = self.canonical_bytes();
        let digest = digest_of(bytes.as_slice());
        encode_hex(digest.as_slice())
    }

    /// Finalizes a draft with a signature that was made elsewhere: sets the identifier
    /// derived from the canonical encoding, then the signature. A finalized event is
    /// left as it is, with `AlreadySigned`.
    pub fn attach_signature(&mut self, signature: &[u8; 64]) -> (done: Result<(), SigningError>)
        ensures
            old(self)@.sig is Some ==> done == Err::<(), SigningError>(SigningError::AlreadySigned)
                && final(self)@ == old(self)@,
            old(self)@.sig is None ==> done == Ok::<(), SigningError>(()) && final(self)@ == sealed(
                old(self)@,
                signature@,
            ),
    {
        if self.seal.is_some() {
            return Err(SigningError::AlreadySigned);
        }
        let id = self.generate_id();
        let sig = encode_hex(signature.as_slice());
        self.seal = Some(Seal { id, sig });
        Ok(())
    }

    /// Finalizes a draft: derives the identifier and signs it with the secret key that
    /// `secret_key` encodes in hexadecimal.
    ///
    /// Fails with `AlreadySigned` on a finalized event, with `InvalidKey` where
    /// `secret_key` encodes no secret key, and with `KeyMismatch` where the key is not
    /// the author's. A failed call changes nothing.
    pub fn setup(&mut self, secret_key: &str) -> (done: Result<(), SigningError>)
        ensures
            done == setup_outcome(old(self)@, secret_key@),
            done is Err ==> final(self)@ == old(self)@,
            done is Ok ==> exists|signature: Seq<u8>|
                signature.len() == 64 && final(self)@ == #[trigger] sealed(old(self)@, signature),
    {
        if self.seal.is_some() {
            return Err(SigningError::AlreadySigned);
        }
        let (keypair, derived) = match read_secret_key(secret_key) {
            Some(pair) => pair,
            None => {
                return Err(SigningError::InvalidKey);
            },
        };
        if !same_bytes(derived.as_slice(), self.pubkey.key.as_slice()) {
            return Err(SigningError::KeyMismatch);
        }
        let bytes = self.canonical_bytes();
        let digest = digest_of(bytes.as_slice());
        let signature = sign_digest(&digest, &keypair);
        self.attach_signature(&signature)
    }

    /// Whether the event carries the identifier derived from its canonical encoding and
    /// a signature of it that is valid under `public_key`.
    pub fn verify(&self, public_key: &PubKeyWrapper) -> (valid: bool)
        ensures
            valid == verifies(self@, public_key.key@),
    {
        let seal = match &self.seal {
            Some(seal) => seal,
            None => {
                return false;
            },
        };
        let bytes = self.canonical_bytes();
        let digest = digest_of(bytes.as_slice());
        let id = encode_hex(digest.as_slice());
        if id != seal.id {
            return false;
        }
        match decode_hex(seal.sig.as_str()) {
            Some(raw) => {
                if raw.len() != 64 {
                    return false;
                }
                let signature: [u8; 64] = to_array(&raw);
                check_signature(&signature, &digest, &public_key.key)
            },
            None => false,
        }
    }

    /// The identifier, where the event is finalized.
    pub fn id(&self) -> (id: Option<&String>)
        ensures
            match self@.id {
                Some(text) => id matches Some(held) && held@ == text,
                None => id is None,
            },
    {
        match &self.seal {
            Some(seal) => Some(&seal.id),
            None => None,
        }
    }

    /// The signature, where the event is finalized.
    pub fn sig(&self) -> (sig: Option<&String>)
        ensures
            match self@.sig {
                Some(text) => sig matches Some(held) && held@ == text,
                None => sig is None,
            },
    {
        match &self.seal {
            Some(seal) => Some(&seal.sig),
            None => None,
        }
    }

    /// The author's key.
    pub fn pubkey(&self) -> (key: PubKeyWrapper)
        ensures
            key.key@ == self@.pubkey,
            key.parity == self@.parity,
    {
        self.pubkey
    }

    /// The kind.
    pub fn kind(&self) -> (kind: u64)
        ensures
            kind == self@.kind,
    {
        self.kind
    }

    /// The content.
    pub fn content(&self) -> (content: &String)
        ensures
            content@ == self@.content,
    {
        &self.content
    }

    /// The time of making, in seconds since the epoch.
    pub fn created_at(&self) -> (created_at: u64)
        ensures
            created_at == self@.created_at,
    {
        self.created_at
    }

    /// The tags, in the order in which they were added.
    pub fn tags(&self) -> (tags: &Vec<Vec<String>>)
        ensures
            tags.deep_view() == self@.tags,
    {
        &self.tags
    }

    /// The event as the object that travels.
    pub fn to_json(&self) -> (j: Json)
        ensures
            j@ == event_json(self@),
    {
        let (id, sig) = match &self.seal {
            Some(seal) => (Json::Str(seal.id.clone()), Json::Str(seal.sig.clone())),
            None => (Json::Null, Json::Null),
        };
        let mut members: Vec<(String, Json)> = Vec::new();
        members.push((String::from_str("id"), id));
        members.push((String::from_str("sig"), sig));
        members.push((String::from_str("pubkey"), Json::Str(self.pubkey.serialize())));
        members.push((String::from_str("kind"), Json::Uint(self.kind)));
        members.push((String::from_str("content"), Json::Str(self.content.clone())));
        members.push((String::from_str("created_at"), Json::Uint(self.created_at)));
        members.push((String::from_str("tags"), tags_to_json(&self.tags)));
        let j = Json::Object(members);
        proof {
            let held = j@->Object_0;
            let wanted = event_json(self@)->Object_0;
            assert(held.len() == 7);
            assert(held[0] == (members@[0].0@, members@[0].1@));
            assert(held[1] == (members@[1].0@, members@[1].1@));
            assert(held[2] == (members@[2].0@, members@[2].1@));
            assert(held[3] == (members@[3].0@, members@[3].1@));
            assert(held[4] == (members@[4].0@, members@[4].1@));
            assert(held[5] == (members@[5].0@, members@[5].1@));
            assert(held[6] == (members@[6].0@, members@[6].1@));
            assert(held =~= wanted);
        }
        j
    }

    /// Reads an event from the object that travels, with its identifier, signature,
    /// tags and time as they stand there; nothing is recomputed or checked against the
    /// signature.
    pub fn from_json(value: &Json) -> (read: Option<Event>)
        ensures
            match event_of_json(value@) {
                Some(e) => read matches Some(event) && event@ == e,
                None => read is None,
            },
    {
        let seal = match (value.get("id"), value.get("sig")) {
            (Some(Json::Str(id)), Some(Json::Str(sig))) => Some(
                Seal { id: id.clone(), sig: sig.clone() },
            ),
            (Some(Json::Null), Some(Json::Null)) => None,
            _ => {
                return None;
            },
        };
        let key = match value.get("pubkey") {
            Some(Json::Str(text)) => match decode_hex(text.as_str()) {
                Some(raw) => {
                    if raw.len() != 32 {
                        return None;
                    }
                    let key: [u8; 32] = to_array(&raw);
                    key
                },
                None => {
                    return None;
                },
            },
            _ => {
                return None;
            },
        };
        let kind = match value.get("kind") {
            Some(Json::Uint(kind)) => *kind,
            _ => {
                return None;
            },
        };
        let content = match value.get("content") {
            Some(Json::Str(content)) => content.clone(),
            _ => {
                return None;
            },
        };
        let created_at = match value.get("created_at") {
            Some(Json::Uint(created_at)) => *created_at,
            _ => {
                return None;
            },
        };
        let tags = match value.get("tags") {
            Some(list) => match tags_from_json(list) {
                Some(tags) => tags,
                None => {
                    return None;
                },
            },
            None => {
                return None;
            },
        };
        Some(
            Event {
                seal,
                pubkey: PubKeyWrapper { key, parity: Parity::Even },
                kind,
                content,
                created_at,
                tags,
            },
        )
    }
}

/// The canonical encoding, and with it the identifier, is a function of the author's
/// key, the time, the kind, the content and the tags alone: two events that agree on
/// these have one encoding, whatever else they hold and however often it is asked for.
pub proof fn lemma_canonical_encoding_is_stable(a: Event, b: Event)
    requires
        a@.pubkey == b@.pubkey,
        a@.created_at == b@.created_at,
        a@.kind == b@.kind,
        a@.content == b@.content,
        a@.tags == b@.tags,
    ensures
        canonical_text(a@) == canonical_text(b@),
        canonical_encoding(a@) == canonical_encoding(b@),
        event_id(a@) == event_id(b@),
{
}

/// An event is finalized once: where `setup` has succeeded on `before` and left
/// `after`, a second `setup` on `after` fails with `AlreadySigned`, whatever key it is
/// given.
pub proof fn lemma_setup_only_once(
    before: Event,
    after: Event,
    first_key: Seq<char>,
    signature: Seq<u8>,
    second_key: Seq<char>,
)
    requires
        setup_outcome(before@, first_key) is Ok,
        after@ == sealed(before@, signature),
    ensures
        setup_outcome(after@, second_key) == Err::<(), SigningError>(SigningError::AlreadySigned),
{
}

/// A draft finalized with a 64-byte signature passes `verify` under a key exactly when
/// that signature is a valid signature of the draft's digest under that key.
pub proof fn lemma_verify_after_setup(before: Event, signature: Seq<u8>, key: Seq<u8>)
    requires
        signature.len() == 64,
    ensures
        verifies(sealed(before@, signature), key) == schnorr_valid(
            signature,
            event_digest(before@),
            key,
        ),
{
    crate::base16::lemma_hex_round_trip(signature);
}

/// An event whose identifier is not the one its present fields call for does not pass
/// `verify`: a change of content, tags, time or kind after signing that changes the
/// derived identifier is found out.
pub proof fn lemma_verify_rejects_stale_id(signed: Event, altered: Event, key: Seq<u8>)
    requires
        signed@.id == Some(event_id(signed@)),
        altered@.id == signed@.id,
        event_id(altered@) != event_id(signed@),
    ensures
        !verifies(altered@, key),
{
}

/// The strings of the array made from a list of strings are that list.
pub proof fn lemma_strings_round_trip(strings: Seq<Seq<char>>)
    ensures
        strings_of_json(strings_json(strings)) == Some(strings),
{
    let items = strings_json(strings)->Array_0;
    assert(strings_of_json(strings_json(strings))->0 =~= strings);
}

/// The tags of the array made from a list of tags are that list.
pub proof fn lemma_tags_round_trip(tags: Seq<Seq<Seq<char>>>)
    ensures
        tags_of_json(tags_json(tags)) == Some(tags),
{
    let items = tags_json(tags)->Array_0;
    assert forall|i: int| 0 <= i < items.len() implies (#[trigger] strings_of_json(items[i]))
        == Some(tags[i]) by {
        lemma_strings_round_trip(tags[i]);
    }
    assert(tags_of_json(tags_json(tags))->0 =~= tags);
}

/// Reading back the object written for an event gives the event again, but for the
/// parity of the author's key, which does not travel and is read back as even.
pub proof fn lemma_event_json_round_trip(e: Event)
    ensures
        event_of_json(event_json(e@)) == Some(EventView { parity: Parity::Even, ..e@ }),
        e@.parity == Parity::Even ==> event_of_json(event_json(e@)) == Some(e@),
{
    let v = event_json(e@);
    let members = v->Object_0;
    reveal_strlit("id");
    reveal_strlit("sig");
    reveal_strlit("pubkey");
    reveal_strlit("kind");
    reveal_strlit("content");
    reveal_strlit("created_at");
    reveal_strlit("tags");
    e.lemma_id_with_sig();
    crate::base16::lemma_hex_round_trip(e@.pubkey);
    lemma_tags_round_trip(e@.tags);
    assert("id"@.len() == 2 && "sig"@.len() == 3 && "pubkey"@.len() == 6 && "kind"@.len() == 4
        && "content"@.len() == 7 && "created_at"@.len() == 10);
    assert("tags"@[0] == 't' && "kind"@[0] == 'k');
    crate::json::lemma_member_at(members, "id"@, 0);
    crate::json::lemma_member_at(members, "sig"@, 1);
    crate::json::lemma_member_at(members, "pubkey"@, 2);
    crate::json::lemma_member_at(members, "kind"@, 3);
    crate::json::lemma_member_at(members, "content"@, 4);
    crate::json::lemma_member_at(members, "created_at"@, 5);
    crate::json::lemma_member_at(members, "tags"@, 6);
    assert(field(v, "id"@) == Some(text_or_null(e@.id)));
    assert(field(v, "sig"@) == Some(text_or_null(e@.sig)));
    assert(field(v, "pubkey"@) == Some(JsonValue::Str(hex_text(e@.pubkey))));
    assert(field(v, "kind"@) == Some(JsonValue::Uint(e@.kind)));
    assert(field(v, "content"@) == Some(JsonValue::Str(e@.content)));
    assert(field(v, "created_at"@) == Some(JsonValue::Uint(e@.created_at)));
    assert(field(v, "tags"@) == Some(tags_json(e@.tags)));
    assert(seal_of_json(field(v, "id"@), field(v, "sig"@)) == Some((e@.id, e@.sig)));
}

} // verus!
