use serde_json::Value;
use subscription_store::envelope::{after_parsing, after_printing, AppData, FORMAT_VERSION};
use subscription_store::failure::{explain, ErrorKind, StoreError};
use subscription_store::location::{get_data_file_path, get_temp_file_path, DATA_FILE_NAME};

fn json(text: &str) -> Value {
    serde_json::from_str(text).unwrap()
}

fn decode_failure(text: &str) -> StoreError {
    match AppData::decode(text) {
        Ok(data) => panic!("decoded {:?}", data),
        Err(error) => error,
    }
}

#[test]
fn stamped_envelope_holds_payloads_and_metadata() {
    let data = AppData::stamped(
        json("{\"a\":[1,2]}"),
        json("{\"theme\":\"dark\"}"),
        "2024-05-06T07:08:09+00:00".to_string(),
    );
    assert_eq!(data.subscriptions(), &json("{\"a\":[1,2]}"));
    assert_eq!(data.settings(), &json("{\"theme\":\"dark\"}"));
    assert_eq!(data.version(), "1.0.0");
    assert_eq!(data.version(), FORMAT_VERSION);
    assert_eq!(data.last_saved(), "2024-05-06T07:08:09+00:00");
}

#[test]
fn stamped_now_uses_the_clock() {
    let before = chrono::Utc::now();
    let data = AppData::stamped_now(json("[1]"), json("null"));
    let after = chrono::Utc::now();
    assert_eq!(data.subscriptions(), &json("[1]"));
    assert_eq!(data.settings(), &Value::Null);
    assert_eq!(data.version(), "1.0.0");
    let saved_at = chrono::DateTime::parse_from_rfc3339(data.last_saved()).unwrap();
    assert_eq!(saved_at.offset().local_minus_utc(), 0);
    assert!(before <= saved_at && saved_at <= after);
}

fn fits(text: &str, shape: &str) -> bool {
    text.len() == shape.len()
        && text.chars().zip(shape.chars()).all(|(sign, expected)| {
            if expected == '#' {
                sign.is_ascii_digit()
            } else {
                sign == expected
            }
        })
}

#[test]
fn stamped_now_writes_the_time_as_rfc_3339_in_utc() {
    for _ in 0..50 {
        let data = AppData::stamped_now(Value::Null, Value::Null);
        let text = data.last_saved();
        assert!(
            fits(text, "####-##-##T##:##:##+00:00")
                || fits(text, "####-##-##T##:##:##.###+00:00")
                || fits(text, "####-##-##T##:##:##.######+00:00")
                || fits(text, "####-##-##T##:##:##.#########+00:00"),
            "{}",
            text
        );
    }
}

#[test]
fn into_parts_gives_the_four_fields() {
    let data = AppData::stamped(json("1"), json("2"), "t".to_string());
    let (subscriptions, settings, version, last_saved) = data.into_parts();
    assert_eq!(subscriptions, json("1"));
    assert_eq!(settings, json("2"));
    assert_eq!(version, "1.0.0");
    assert_eq!(last_saved, "t");
}

#[test]
fn into_value_is_an_object_of_four_fields() {
    let data = AppData::stamped(json("[true]"), json("{}"), "2024-01-01T00:00:00+00:00".to_string());
    let value = data.into_value();
    let object = value.as_object().unwrap();
    assert_eq!(object.len(), 4);
    assert_eq!(object.get("subscriptions"), Some(&json("[true]")));
    assert_eq!(object.get("settings"), Some(&json("{}")));
    assert_eq!(object.get("version"), Some(&Value::String("1.0.0".to_string())));
    assert_eq!(
        object.get("last_saved"),
        Some(&Value::String("2024-01-01T00:00:00+00:00".to_string()))
    );
}

#[test]
fn encode_prints_pretty_json() {
    let data = AppData::stamped(
        json("{\"a\":[1,2]}"),
        json("{\"theme\":\"dark\"}"),
        "2024-01-01T00:00:00+00:00".to_string(),
    );
    let text = data.encode().unwrap();
    let expected = "{\n  \"last_saved\": \"2024-01-01T00:00:00+00:00\",\n  \"settings\": {\n    \"theme\": \"dark\"\n  },\n  \"subscriptions\": {\n    \"a\": [\n      1,\n      2\n    ]\n  },\n  \"version\": \"1.0.0\"\n}";
    assert_eq!(text, expected);
}

#[test]
fn decode_reads_what_encode_wrote() {
    let subscriptions = json("[{\"name\":\"music\",\"price\":9.99,\"tags\":[\"a\",null,true]}]");
    let settings = json("{\"currency\":\"EUR\",\"notify\":{\"days\":[1,3,7],\"mail\":false}}");
    let text = AppData::stamped(subscriptions.clone(), settings.clone(), "2024-01-01T00:00:00Z".to_string())
        .encode()
        .unwrap();
    let data = AppData::decode(&text).unwrap();
    assert_eq!(data.subscriptions(), &subscriptions);
    assert_eq!(data.settings(), &settings);
    assert_eq!(data.version(), "1.0.0");
    assert_eq!(data.last_saved(), "2024-01-01T00:00:00Z");
}

#[test]
fn decode_accepts_any_version_and_time() {
    let data = AppData::decode(
        "{\"subscriptions\":[],\"settings\":{},\"version\":\"0.3.0\",\"last_saved\":\"yesterday\"}",
    )
    .unwrap();
    assert_eq!(data.version(), "0.3.0");
    assert_eq!(data.last_saved(), "yesterday");
}

#[test]
fn decode_defaults_missing_metadata_to_empty() {
    let data = AppData::decode("{\"subscriptions\":[{\"id\":1}],\"settings\":{\"theme\":\"light\"}}").unwrap();
    assert_eq!(data.subscriptions(), &json("[{\"id\":1}]"));
    assert_eq!(data.settings(), &json("{\"theme\":\"light\"}"));
    assert_eq!(data.version(), "");
    assert_eq!(data.last_saved(), "");
}

#[test]
fn decode_defaults_each_metadata_field_alone() {
    let data = AppData::decode("{\"subscriptions\":1,\"settings\":2,\"version\":\"1.0.0\"}").unwrap();
    assert_eq!(data.version(), "1.0.0");
    assert_eq!(data.last_saved(), "");
    let data = AppData::decode("{\"subscriptions\":1,\"settings\":2,\"last_saved\":\"now\"}").unwrap();
    assert_eq!(data.version(), "");
    assert_eq!(data.last_saved(), "now");
}

#[test]
fn decode_ignores_other_fields() {
    let data = AppData::decode("{\"extra\":1,\"subscriptions\":null,\"settings\":null,\"zzz\":[]}").unwrap();
    assert_eq!(data.subscriptions(), &Value::Null);
    assert_eq!(data.settings(), &Value::Null);
}

#[test]
fn decode_takes_the_last_of_a_field_named_twice() {
    let data = AppData::decode("{\"subscriptions\":1,\"settings\":2,\"subscriptions\":3}").unwrap();
    assert_eq!(data.subscriptions(), &json("3"));
    assert_eq!(data.settings(), &json("2"));
}

#[test]
fn decode_rejects_text_that_is_no_json() {
    let error = decode_failure("<not an envelope>");
    assert_eq!(error.kind(), ErrorKind::Deserialization);
    assert_eq!(error.message(), "Failed to parse data: expected value at line 1 column 1");
}

#[test]
fn decode_rejects_truncated_text() {
    let text = AppData::stamped(json("[1,2,3]"), json("{}"), "t".to_string()).encode().unwrap();
    let error = decode_failure(&text[..text.len() / 2]);
    assert_eq!(error.kind(), ErrorKind::Deserialization);
    assert!(error.message().starts_with("Failed to parse data: EOF while parsing"));
    assert_eq!(decode_failure("").kind(), ErrorKind::Deserialization);
}

#[test]
fn decode_rejects_what_is_no_object() {
    for text in ["[1,2]", "\"text\"", "12", "null", "true"] {
        let error = decode_failure(text);
        assert_eq!(error.kind(), ErrorKind::Deserialization);
        assert_eq!(error.message(), "Failed to parse data: invalid type: expected struct AppData");
    }
}

#[test]
fn decode_rejects_a_missing_payload() {
    let error = decode_failure("{\"settings\":{}}");
    assert_eq!(error.kind(), ErrorKind::Deserialization);
    assert_eq!(error.message(), "Failed to parse data: missing field `subscriptions`");
    let error = decode_failure("{\"subscriptions\":[]}");
    assert_eq!(error.kind(), ErrorKind::Deserialization);
    assert_eq!(error.message(), "Failed to parse data: missing field `settings`");
    let error = decode_failure("{}");
    assert_eq!(error.message(), "Failed to parse data: missing field `subscriptions`");
}

#[test]
fn decode_rejects_metadata_that_is_no_text() {
    let error = decode_failure("{\"subscriptions\":[],\"settings\":{},\"version\":1}");
    assert_eq!(error.kind(), ErrorKind::Deserialization);
    assert_eq!(
        error.message(),
        "Failed to parse data: invalid type for field `version`: expected a string"
    );
    let error = decode_failure("{\"subscriptions\":[],\"settings\":{},\"last_saved\":null}");
    assert_eq!(error.kind(), ErrorKind::Deserialization);
    assert_eq!(
        error.message(),
        "Failed to parse data: invalid type for field `last_saved`: expected a string"
    );
}

#[test]
fn from_value_takes_the_fields_of_an_object() {
    let data = AppData::from_value(json("{\"subscriptions\":[1],\"settings\":{\"k\":\"v\"},\"version\":\"9\"}")).unwrap();
    assert_eq!(data.subscriptions(), &json("[1]"));
    assert_eq!(data.settings(), &json("{\"k\":\"v\"}"));
    assert_eq!(data.version(), "9");
    assert_eq!(data.last_saved(), "");
    assert!(matches!(AppData::from_value(json("[]")), Err(StoreError::Deserialization(_))));
}

#[test]
fn from_value_finds_the_envelope_in_its_own_object() {
    let value = AppData::stamped(json("{\"deep\":{\"er\":[[]]}}"), json("0.5"), "when".to_string()).into_value();
    let data = AppData::from_value(value).unwrap();
    assert_eq!(data.subscriptions(), &json("{\"deep\":{\"er\":[[]]}}"));
    assert_eq!(data.settings(), &json("0.5"));
    assert_eq!(data.version(), "1.0.0");
    assert_eq!(data.last_saved(), "when");
}

#[test]
fn failures_have_kind_and_message() {
    let cases = [
        (StoreError::Location("a".to_string()), ErrorKind::Location, "a"),
        (StoreError::Io("b".to_string()), ErrorKind::Io, "b"),
        (StoreError::Serialization("c".to_string()), ErrorKind::Serialization, "c"),
        (StoreError::Deserialization("d".to_string()), ErrorKind::Deserialization, "d"),
        (StoreError::NotFound, ErrorKind::NotFound, "No saved data found"),
    ];
    for (error, kind, message) in cases {
        assert_eq!(error.kind(), kind);
        assert_eq!(error.message(), message);
    }
}

#[test]
fn explain_puts_the_cause_behind_the_prefix() {
    assert_eq!(explain("Failed to read file: ", "denied"), "Failed to read file: denied");
    assert_eq!(explain("", ""), "");
}

#[test]
fn data_file_is_named_inside_the_data_directory() {
    assert_eq!(DATA_FILE_NAME, "subscription-data.json");
    let path = get_data_file_path("/home/user/.local/share/tracker");
    assert_eq!(path, "/home/user/.local/share/tracker/subscription-data.json");
    let expected = std::path::Path::new("data dir").join("subscription-data.json");
    assert_eq!(get_data_file_path("data dir"), expected.to_string_lossy());
}

#[test]
fn temp_file_is_a_sibling_of_the_data_file() {
    assert_eq!(get_temp_file_path("/d/subscription-data.json"), "/d/subscription-data.json.tmp");
    assert_ne!(get_temp_file_path("x"), "x");
}

#[test]
fn a_failed_print_is_a_failure_of_serialization() {
    let error = after_printing(Err("key must be a string".to_string())).unwrap_err();
    assert!(matches!(error, StoreError::Serialization(_)));
    assert_eq!(error.kind(), ErrorKind::Serialization);
    assert_eq!(error.message(), "Failed to serialize data: key must be a string");
    assert_eq!(after_printing(Ok("{}".to_string())).unwrap(), "{}");
}

#[test]
fn a_failed_parse_is_a_failure_of_deserialization() {
    let error = after_parsing(Err("expected value at line 1 column 1".to_string())).unwrap_err();
    assert!(matches!(error, StoreError::Deserialization(_)));
    assert_eq!(error.message(), "Failed to parse data: expected value at line 1 column 1");
    let data = after_parsing(Ok(json("{\"subscriptions\":[1],\"settings\":[2]}"))).unwrap();
    assert_eq!(data.subscriptions(), &json("[1]"));
    assert_eq!(data.settings(), &json("[2]"));
    let error = after_parsing(Ok(json("[1,2]"))).unwrap_err();
    assert_eq!(error.kind(), ErrorKind::Deserialization);
}
