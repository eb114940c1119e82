//! The envelope: the two payloads and the metadata that the store writes
//! beside them, and how an envelope becomes text and text an envelope.

use crate::clock::{is_utc_timestamp, now_rfc3339};
use crate::failure::{explain, Failure, StoreError};
use crate::json::{
    describe, into_object, into_text, json_of, new_object, object_value, parse, parsed,
    print_pretty, printed, put_field, take_field, text_value, Json,
};
use vstd::prelude::*;

verus! {

/// The version of the envelope's format that this library writes.
pub const FORMAT_VERSION: &'static str = "1.0.0";

/// The field of the first payload.
pub const SUBSCRIPTIONS_FIELD: &'static str = "subscriptions";

/// The field of the second payload.
pub const SETTINGS_FIELD: &'static str = "settings";

/// The field of the format version.
pub const VERSION_FIELD: &'static str = "version";

/// The field of the time of saving.
pub const LAST_SAVED_FIELD: &'static str = "last_saved";

/// What the message of every text that is no envelope begins with.
pub const PARSE_FAILURE: &'static str = "Failed to parse data: ";

/// What the message of every envelope that cannot be printed begins with.
pub const SERIALIZE_FAILURE: &'static str = "Failed to serialize data: ";

/// The envelope: what the data file holds.
///
/// The payloads are opaque: the library moves them and never looks inside.
/// The metadata is the store's own: the version is stamped on every envelope
/// that is made for a save, and an envelope that was loaded has what its
/// file said.
#[derive(Debug)]
pub struct AppData {
    subscriptions: serde_json::Value,
    settings: serde_json::Value,
    version: String,
    last_saved: String,
}

/// An envelope as a mathematical value.
pub struct Envelope {
    pub subscriptions: Json,
    pub settings: Json,
    pub version: Seq<char>,
    pub last_saved: Seq<char>,
}

impl View for AppData {
    type V = Envelope;

    closed spec fn view(&self) -> Envelope {
        Envelope {
            subscriptions: json_of(self.subscriptions),
            settings: json_of(self.settings),
            version: self.version@,
            last_saved: self.last_saved@,
        }
    }
}

/// Whether an envelope holds the two payloads, the current format version,
/// and as its time of saving a time in UTC as RFC 3339 writes it.
pub open spec fn freshly_stamped(envelope: Envelope, subscriptions: Json, settings: Json) -> bool {
    &&& envelope.subscriptions == subscriptions
    &&& envelope.settings == settings
    &&& envelope.version == FORMAT_VERSION@
    &&& is_utc_timestamp(envelope.last_saved)
}

/// The JSON object that an envelope is written as.
pub open spec fn envelope_json(envelope: Envelope) -> Json {
    Json::Object(
        Map::<Seq<char>, Json>::empty().insert(SUBSCRIPTIONS_FIELD@, envelope.subscriptions).insert(
            SETTINGS_FIELD@,
            envelope.settings,
        ).insert(VERSION_FIELD@, Json::Text(envelope.version)).insert(
            LAST_SAVED_FIELD@,
            Json::Text(envelope.last_saved),
        ),
    )
}

/// The failure for a JSON document that is no object.
pub open spec fn not_an_object() -> Failure {
    Failure::Deserialization(PARSE_FAILURE@ + "invalid type: expected struct AppData"@)
}

/// The failure for an object that lacks a payload.
pub open spec fn missing_field(name: Seq<char>) -> Failure {
    Failure::Deserialization(PARSE_FAILURE@ + "missing field `"@ + name + "`"@)
}

/// The failure for an object whose metadata is no text.
pub open spec fn not_a_text(name: Seq<char>) -> Failure {
    Failure::Deserialization(
        PARSE_FAILURE@ + "invalid type for field `"@ + name + "`: expected a string"@,
    )
}

/// The text of a field of metadata: empty where the field is absent, none
/// where it holds anything but a text.
pub open spec fn metadata(fields: Map<Seq<char>, Json>, name: Seq<char>) -> Option<Seq<char>> {
    if !fields.contains_key(name) {
        Some(Seq::empty())
    } else {
        match fields[name] {
            Json::Text(text) => Some(text),
            _ => None,
        }
    }
}

/// The envelope that a JSON document holds.
///
/// The document must be an object with both payloads. The metadata may be
/// absent and is then empty. Fields beyond the four are ignored.
pub open spec fn envelope_of(json: Json) -> Result<Envelope, Failure> {
    match json {
        Json::Object(fields) => {
            if !fields.contains_key(SUBSCRIPTIONS_FIELD@) {
                Err(missing_field(SUBSCRIPTIONS_FIELD@))
            } else if !fields.contains_key(SETTINGS_FIELD@) {
                Err(missing_field(SETTINGS_FIELD@))
            } else if metadata(fields, VERSION_FIELD@).is_none() {
                Err(not_a_text(VERSION_FIELD@))
            } else if metadata(fields, LAST_SAVED_FIELD@).is_none() {
                Err(not_a_text(LAST_SAVED_FIELD@))
            } else {
                Ok(
                    Envelope {
                        subscriptions: fields[SUBSCRIPTIONS_FIELD@],
                        settings: fields[SETTINGS_FIELD@],
                        version: metadata(fields, VERSION_FIELD@).unwrap(),
                        last_saved: metadata(fields, LAST_SAVED_FIELD@).unwrap(),
                    },
                )
            }
        },
        _ => Err(not_an_object()),
    }
}

/// The text that an envelope is saved as, or the failure to print it.
pub open spec fn encoded(envelope: Envelope) -> Result<Seq<char>, Failure> {
    match printed(envelope_json(envelope)) {
        Ok(text) => Ok(text),
        Err(cause) => Err(Failure::Serialization(SERIALIZE_FAILURE@ + cause)),
    }
}

/// The envelope that a text holds, or why it holds none. The text is read
/// as JSON first, so where it names a field twice the last one counts.
pub open spec fn decoded(text: Seq<char>) -> Result<Envelope, Failure> {
    match parsed(text) {
        Ok(json) => envelope_of(json),
        Err(cause) => Err(Failure::Deserialization(PARSE_FAILURE@ + cause)),
    }
}

/// A result of decoding as a mathematical value.
pub open spec fn decoding(outcome: Result<AppData, StoreError>) -> Result<Envelope, Failure> {
    match outcome {
        Ok(data) => Ok(data@),
        Err(error) => Err(error@),
    }
}

/// A result of encoding as a mathematical value.
pub open spec fn encoding(outcome: Result<String, StoreError>) -> Result<Seq<char>, Failure> {
    match outcome {
        Ok(text) => Ok(text@),
        Err(error) => Err(error@),
    }
}

/// The four field names differ from one another.
pub proof fn lemma_field_names_differ()
    ensures
        SUBSCRIPTIONS_FIELD@ != SETTINGS_FIELD@,
        SUBSCRIPTIONS_FIELD@ != VERSION_FIELD@,
        SUBSCRIPTIONS_FIELD@ != LAST_SAVED_FIELD@,
        SETTINGS_FIELD@ != VERSION_FIELD@,
        SETTINGS_FIELD@ != LAST_SAVED_FIELD@,
        VERSION_FIELD@ != LAST_SAVED_FIELD@,
{
    reveal_strlit("subscriptions");
    reveal_strlit("settings");
    reveal_strlit("version");
    reveal_strlit("last_saved");
    assert(SUBSCRIPTIONS_FIELD@.len() == 13);
    assert(SETTINGS_FIELD@.len() == 8);
    assert(VERSION_FIELD@.len() == 7);
    assert(LAST_SAVED_FIELD@.len() == 10);
}

impl AppData {
    /// The envelope around two payloads, with the current format version
    /// and the given time of saving.
    pub fn stamped(
        subscriptions: serde_json::Value,
        settings: serde_json::Value,
        saved_at: String,
    ) -> (data: AppData)
        ensures
            data@ == (Envelope {
                subscriptions: json_of(subscriptions),
                settings: json_of(settings),
                version: FORMAT_VERSION@,
                last_saved: saved_at@,
            }),
    {
        AppData { subscriptions, settings, version: FORMAT_VERSION.to_owned(), last_saved: saved_at }
    }

    /// The envelope around two payloads, with the current format version
    /// and the current time in UTC. Which time that is, the clock decides.
    pub fn stamped_now(
        subscriptions: serde_json::Value,
        settings: serde_json::Value,
    ) -> (data: AppData)
        ensures
            freshly_stamped(data@, json_of(subscriptions), json_of(settings)),
    {
        let saved_at = now_rfc3339();
        AppData::stamped(subscriptions, settings, saved_at)
    }

    /// The first payload.
    pub fn subscriptions(&self) -> (payload: &serde_json::Value)
        ensures
            json_of(*payload) == self@.subscriptions,
    {
        &self.subscriptions
    }

    /// The second payload.
    pub fn settings(&self) -> (payload: &serde_json::Value)
        ensures
            json_of(*payload) == self@.settings,
    {
        &self.settings
    }

    /// The version of the format that the envelope was written in; empty
    /// where the file named none.
    pub fn version(&self) -> (text: &str)
        ensures
            text@ == self@.version,
    {
        self.version.as_str()
    }

    /// The time at which the envelope was saved; empty where the file named
    /// none.
    pub fn last_saved(&self) -> (text: &str)
        ensures
            text@ == self@.last_saved,
    {
        self.last_saved.as_str()
    }

    /// The envelope taken apart: payloads first, then version and time of
    /// saving.
    pub fn into_parts(self) -> (parts: (serde_json::Value, serde_json::Value, String, String))
        ensures
            json_of(parts.0) == self@.subscriptions,
            json_of(parts.1) == self@.settings,
            parts.2@ == self@.version,
            parts.3@ == self@.last_saved,
    {
        (self.subscriptions, self.settings, self.version, self.last_saved)
    }

    /// The JSON object that the envelope is written as.
    pub fn into_value(self) -> (value: serde_json::Value)
        ensures
            json_of(value) == envelope_json(self@),
    {
        let mut object = new_object();
        put_field(&mut object, SUBSCRIPTIONS_FIELD.to_owned(), self.subscriptions);
        put_field(&mut object, SETTINGS_FIELD.to_owned(), self.settings);
        put_field(&mut object, VERSION_FIELD.to_owned(), text_value(self.version));
        put_field(&mut object, LAST_SAVED_FIELD.to_owned(), text_value(self.last_saved));
        object_value(object)
    }

    /// The text that the envelope is saved as: pretty-printed JSON.
    pub fn encode(self) -> (outcome: Result<String, StoreError>)
        ensures
            encoding(outcome) == encoded(self@),
    {
        let value = self.into_value();
        match print_pretty(&value) {
            Ok(text) => after_printing(Ok(text)),
            Err(error) => after_printing(Err(describe(&error))),
        }
    }

    /// The envelope that a JSON value holds.
    pub fn from_value(value: serde_json::Value) -> (outcome: Result<AppData, StoreError>)
        ensures
            decoding(outcome) == envelope_of(json_of(value)),
    {
        proof {
            lemma_field_names_differ();
        }
        let mut object = match into_object(value) {
            Some(object) => object,
            None => {
                return Err(
                    StoreError::Deserialization(
                        explain(PARSE_FAILURE, "invalid type: expected struct AppData"),
                    ),
                );
            },
        };
        let subscriptions = match take_field(&mut object, SUBSCRIPTIONS_FIELD) {
            Some(payload) => payload,
            None => {
                return Err(missing(SUBSCRIPTIONS_FIELD));
            },
        };
        let settings = match take_field(&mut object, SETTINGS_FIELD) {
            Some(payload) => payload,
            None => {
                return Err(missing(SETTINGS_FIELD));
            },
        };
        let version = match take_field(&mut object, VERSION_FIELD) {
            Some(found) => match into_text(found) {
                Some(text) => text,
                None => {
                    return Err(not_text(VERSION_FIELD));
                },
            },
            None => String::new(),
        };
        let last_saved = match take_field(&mut object, LAST_SAVED_FIELD) {
            Some(found) => match into_text(found) {
                Some(text) => text,
                None => {
                    return Err(not_text(LAST_SAVED_FIELD));
                },
            },
            None => String::new(),
        };
        Ok(AppData { subscriptions, settings, version, last_saved })
    }

    /// The envelope that a text holds.
    pub fn decode(text: &str) -> (outcome: Result<AppData, StoreError>)
        ensures
            decoding(outcome) == decoded(text@),
    {
        match parse(text) {
            Ok(value) => after_parsing(Ok(value)),
            Err(error) => after_parsing(Err(describe(&error))),
        }
    }
}

/// What encoding comes to, given what printing came to: the text, or the
/// printer's diagnostic.
pub fn after_printing(printing: Result<String, String>) -> (outcome: Result<String, StoreError>)
    ensures
        encoding(outcome) == match printing {
            Ok(text) => Ok::<Seq<char>, Failure>(text@),
            Err(cause) => Err(Failure::Serialization(SERIALIZE_FAILURE@ + cause@)),
        },
{
    match printing {
        Ok(text) => Ok(text),
        Err(cause) => Err(StoreError::Serialization(explain(SERIALIZE_FAILURE, cause.as_str()))),
    }
}

/// What decoding comes to, given what parsing came to: the JSON value, or
/// the parser's diagnostic.
pub fn after_parsing(
    parsing: Result<serde_json::Value, String>,
) -> (outcome: Result<AppData, StoreError>)
    ensures
        decoding(outcome) == match parsing {
            Ok(value) => envelope_of(json_of(value)),
            Err(cause) => Err(Failure::Deserialization(PARSE_FAILURE@ + cause@)),
        },
{
    match parsing {
        Ok(value) => AppData::from_value(value),
        Err(cause) => Err(StoreError::Deserialization(explain(PARSE_FAILURE, cause.as_str()))),
    }
}

fn missing(name: &str) -> (error: StoreError)
    ensures
        error@ == missing_field(name@),
{
    let mut text = explain(PARSE_FAILURE, "missing field `");
    text.append(name);
    text.append("`");
    StoreError::Deserialization(text)
}

fn not_text(name: &str) -> (error: StoreError)
    ensures
        error@ == not_a_text(name@),
{
    let mut text = explain(PARSE_FAILURE, "invalid type for field `");
    text.append(name);
    text.append("`: expected a string");
    StoreError::Deserialization(text)
}

} // verus!

