use aria2_api::{
    unwrap_result_for_string, CallError, DecodeError, ErrorObject, GlobalStat, JsonValue,
    ResponseObject, Status, Version,
};

fn s(text: &str) -> JsonValue {
    JsonValue::String(text.to_string())
}

fn object(members: Vec<(&str, JsonValue)>) -> JsonValue {
    JsonValue::Object(members.into_iter().map(|(k, v)| (k.to_string(), v)).collect())
}

fn response(result: Option<JsonValue>, error: Option<ErrorObject>) -> ResponseObject {
    ResponseObject {
        result,
        error,
        jsonrpc: "2.0".to_string(),
        id: Some("1".to_string()),
        method: None,
        params: None,
    }
}

fn rpc_error() -> ErrorObject {
    ErrorObject { code: 1, message: Some("Unauthorized".to_string()), data: None }
}

fn status_members() -> Vec<(&'static str, JsonValue)> {
    vec![
        ("gid", s("g")),
        ("status", s("active")),
        ("totalLength", s("1")),
        ("completedLength", s("2")),
        ("uploadLength", s("3")),
        ("bitfield", s("f0")),
        ("downloadSpeed", s("4")),
        ("uploadSpeed", s("5")),
        ("infoHash", s("h")),
    ]
}

#[test]
fn test_format() {
    let v = Status {
        gid: "abc".to_string(),
        status: "def".to_string(),
        total_length: "1".to_string(),
        completed_length: "2".to_string(),
        upload_length: "3".to_string(),
        bitfield: "ghi".to_string(),
        download_speed: "4".to_string(),
        upload_speed: "5".to_string(),
        info_hash: "jkl".to_string(),
    };
    println!("{}", v.to_string());
    assert_eq!(
        v.to_string(),
        "Status:\n  gid: abc\n  status: def\n  total length: 1bytes\n  completed length: 2bytes\n  \
         upload length: 3bytes\n  bitfield: ghi\n  download speed: 4bytes/sec\n  \
         upload speed: 5bytes/sec\n  info_hash: jkl"
    );

    let mut ef = Vec::new();
    ef.push("abc".to_string());

    let v = Version {
        version: "v0.1.0".to_string(),
        enabled_features: ef,
    };
    println!("{}", v.to_string());
    assert_eq!(
        v.to_string(),
        "Version:\n  version: v0.1.0\n  enabled features: [\"abc\"]"
    );

    let v = GlobalStat {
        download_speed: "1".to_string(),
        upload_speed: "2".to_string(),
        num_active: "3".to_string(),
        num_waiting: "4".to_string(),
        num_stopped: "5".to_string(),
        num_stopped_total: "6".to_string(),
    };
    println!("{}", v.to_string());
    assert_eq!(
        v.to_string(),
        "Global Stat:\n  download speed: 1bytes/sec\n  upload speed: 2/bytes/sec\n  \
         num active: 3\n  num waiting: 4\n  num stopped: 5\n  num stopped total: 6\n"
    );
}

#[test]
fn features_are_shown_as_a_list() {
    let none = Version { version: "1".to_string(), enabled_features: vec![] };
    assert_eq!(none.to_string(), "Version:\n  version: 1\n  enabled features: []");
    let two = Version {
        version: "1".to_string(),
        enabled_features: vec!["Async DNS".to_string(), "a\"b".to_string()],
    };
    assert_eq!(
        two.to_string(),
        "Version:\n  version: 1\n  enabled features: [\"Async DNS\", \"a\\\"b\"]"
    );
}

#[test]
fn errors_and_responses_are_shown() {
    let e = ErrorObject { code: -32700, message: Some("no".to_string()), data: None };
    assert_eq!(e.to_string(), "code: -32700, message: Some(\"no\"), data: None");
    let least = ErrorObject { code: i16::MIN, message: None, data: Some("d".to_string()) };
    assert_eq!(least.to_string(), "code: -32768, message: None, data: Some(\"d\")");

    let res = ResponseObject {
        result: Some(object(vec![
            ("b", JsonValue::Number(serde_json::Number::from(7))),
            ("a", JsonValue::Array(vec![s("x"), JsonValue::Null, JsonValue::Bool(true)])),
        ])),
        error: Some(e),
        jsonrpc: "2.0".to_string(),
        id: Some("1".to_string()),
        method: None,
        params: None,
    };
    assert_eq!(
        res.to_string(),
        "result: Some(Object {\"a\": Array [String(\"x\"), Null, Bool(true)], \"b\": Number(7)})\n\
         error: Some(ErrorObject { code: -32700, message: Some(\"no\"), data: None })\n\
         jsonrpc: \"2.0\"\nid: Some(\"1\")\nmethod: None\nparams: None"
    );
    let shown = format!("{:?}", res.error);
    assert!(res.to_string().contains(&shown));
}

#[test]
fn responses_are_shown_for_debugging() {
    let res = ResponseObject {
        result: Some(object(vec![
            ("b", JsonValue::Number(serde_json::Number::from(7))),
            ("a", JsonValue::Array(vec![s("x"), JsonValue::Null, JsonValue::Bool(true)])),
        ])),
        error: Some(ErrorObject { code: 1, message: None, data: None }),
        jsonrpc: "2.0".to_string(),
        id: None,
        method: Some("m".to_string()),
        params: Some(JsonValue::Array(vec![])),
    };
    assert_eq!(
        res.to_debug(),
        "ResponseObject { result: Some(Object {\"a\": Array [String(\"x\"), Null, Bool(true)], \
         \"b\": Number(7)}), error: Some(ErrorObject { code: 1, message: None, data: None }), \
         jsonrpc: \"2.0\", id: None, method: Some(\"m\"), params: Some(Array []) }"
    );
    assert_eq!(res.clone().to_debug(), res.to_debug());
    assert_eq!(
        aria2_api::response::show_response_debug("A", "B", "C", "D", "E", "F"),
        "ResponseObject { result: A, error: B, jsonrpc: C, id: D, method: E, params: F }"
    );
}

#[test]
fn a_version_is_read() {
    let v = object(vec![
        ("enabledFeatures", JsonValue::Array(vec![s("BitTorrent"), s("GZip")])),
        ("more", JsonValue::Null),
        ("version", s("1.36.0")),
    ]);
    let version = Version::from_response(response(Some(v), None)).unwrap();
    assert_eq!(version.version, "1.36.0");
    assert_eq!(version.enabled_features, vec!["BitTorrent", "GZip"]);
}

#[test]
fn a_record_is_read_out_of_an_array_too() {
    let v = JsonValue::Array(vec![s("1.36.0"), JsonValue::Array(vec![])]);
    let version = Version::from_json(&v).unwrap();
    assert_eq!(version.version, "1.36.0");
    assert!(version.enabled_features.is_empty());

    let short = JsonValue::Array(vec![s("1.36.0")]);
    assert_eq!(Version::from_json(&short).unwrap_err(), DecodeError::InvalidLength(1));
    let long = JsonValue::Array(vec![s("1"), JsonValue::Array(vec![]), JsonValue::Null]);
    assert_eq!(Version::from_json(&long).unwrap_err(), DecodeError::InvalidLength(3));
    let mistyped = JsonValue::Array(vec![JsonValue::Null]);
    assert_eq!(Version::from_json(&mistyped).unwrap_err(), DecodeError::InvalidType);
}

#[test]
fn a_status_is_read() {
    let status = Status::from_response(response(Some(object(status_members())), None)).unwrap();
    assert_eq!(status.gid, "g");
    assert_eq!(status.status, "active");
    assert_eq!(status.total_length, "1");
    assert_eq!(status.completed_length, "2");
    assert_eq!(status.upload_length, "3");
    assert_eq!(status.bitfield, "f0");
    assert_eq!(status.download_speed, "4");
    assert_eq!(status.upload_speed, "5");
    assert_eq!(status.info_hash, "h");
}

#[test]
fn every_field_of_a_status_is_needed() {
    for k in 0..9 {
        let mut members = status_members();
        let (name, _) = members.remove(k);
        match Status::from_json(&object(members)) {
            Err(DecodeError::MissingField(missing)) => assert_eq!(missing, name),
            other => panic!("{:?}", other),
        }
    }
    let mut members = status_members();
    members.truncate(3);
    assert_eq!(
        Status::from_json(&object(members)).unwrap_err(),
        DecodeError::MissingField("completedLength")
    );
}

#[test]
fn a_wrong_type_counts_before_a_missing_field() {
    let mut members = status_members();
    members.remove(0);
    members[4] = ("bitfield", JsonValue::Bool(true));
    assert_eq!(Status::from_json(&object(members)).unwrap_err(), DecodeError::InvalidType);
    assert_eq!(Status::from_json(&s("g")).unwrap_err(), DecodeError::InvalidType);
    assert_eq!(Status::from_json(&JsonValue::Null).unwrap_err(), DecodeError::InvalidType);
    let not_strings = object(vec![
        ("version", s("1")),
        ("enabledFeatures", JsonValue::Array(vec![s("a"), JsonValue::Null])),
    ]);
    assert_eq!(Version::from_json(&not_strings).unwrap_err(), DecodeError::InvalidType);
    let not_a_list = object(vec![("version", s("1")), ("enabledFeatures", s("a"))]);
    assert_eq!(Version::from_json(&not_a_list).unwrap_err(), DecodeError::InvalidType);
}

#[test]
fn other_members_and_earlier_ones_do_not_matter() {
    let mut members = status_members();
    members.insert(0, ("gid", JsonValue::Null));
    members.push(("connections", JsonValue::Number(serde_json::Number::from(3))));
    assert_eq!(Status::from_json(&object(members)).unwrap().gid, "g");
}

#[test]
fn the_statistics_are_read() {
    let members = vec![
        ("numStoppedTotal", s("6")),
        ("numStopped", s("5")),
        ("numWaiting", s("4")),
        ("numActive", s("3")),
        ("uploadSpeed", s("2")),
        ("downloadSpeed", s("1")),
    ];
    let stat = GlobalStat::from_response(response(Some(object(members)), None)).unwrap();
    assert_eq!(stat.download_speed, "1");
    assert_eq!(stat.upload_speed, "2");
    assert_eq!(stat.num_active, "3");
    assert_eq!(stat.num_waiting, "4");
    assert_eq!(stat.num_stopped, "5");
    assert_eq!(stat.num_stopped_total, "6");
    assert_eq!(
        GlobalStat::from_json(&object(vec![])).unwrap_err(),
        DecodeError::MissingField("downloadSpeed")
    );
}

#[test]
fn a_string_is_unwrapped() {
    let gid = unwrap_result_for_string(response(Some(s("2089b05ecca3d829")), None)).unwrap();
    assert_eq!(gid, "2089b05ecca3d829");
    let wrong = unwrap_result_for_string(response(Some(JsonValue::Array(vec![s("a")])), None));
    assert!(matches!(wrong, Err(CallError::Decode(DecodeError::InvalidType))));
    let wrong = unwrap_result_for_string(response(Some(object(vec![("a", s("b"))])), None));
    assert!(matches!(wrong, Err(CallError::Decode(DecodeError::InvalidType))));
}

#[test]
fn an_error_is_the_callers() {
    let e = unwrap_result_for_string(response(None, Some(rpc_error()))).unwrap_err();
    assert!(matches!(e, CallError::Rpc(e) if e.code == 1 && e.message.as_deref() == Some("Unauthorized")));
    assert!(matches!(
        Version::from_response(response(None, Some(rpc_error()))),
        Err(CallError::Rpc(_))
    ));
    assert!(matches!(
        Status::from_response(response(None, Some(rpc_error()))),
        Err(CallError::Rpc(_))
    ));
    assert!(matches!(
        GlobalStat::from_response(response(None, Some(rpc_error()))),
        Err(CallError::Rpc(_))
    ));
    assert!(matches!(
        Status::from_response(response(Some(JsonValue::Bool(true)), None)),
        Err(CallError::Decode(DecodeError::InvalidType))
    ));
}

#[test]
fn a_result_counts_before_an_error() {
    let both = response(Some(s("OK")), Some(rpc_error()));
    assert!(both.is_answered());
    assert_eq!(unwrap_result_for_string(both).unwrap(), "OK");
    assert!(!response(None, None).is_answered());
    assert!(response(None, Some(rpc_error())).is_answered());
}

#[test]
fn a_copy_of_json_is_the_same_json() {
    let v = object(vec![
        ("a", JsonValue::Array(vec![s("x"), JsonValue::Null, JsonValue::Bool(false)])),
        ("n", JsonValue::Number(serde_json::Number::from(12u64))),
    ]);
    assert_eq!(v.clone().to_text(), r#"{"a":["x",null,false],"n":12}"#);
    assert_eq!(v.clone().to_text(), v.to_text());
    assert_eq!(v.to_str(), None);
    assert_eq!(s("x").to_str(), Some("x".to_string()));
}

#[test]
fn shown_pieces_are_put_together() {
    assert_eq!(aria2_api::text::show_optional(None), "None");
    assert_eq!(aria2_api::text::show_optional(Some("x".to_string())), "Some(x)");
    assert_eq!(aria2_api::text::show_list(&vec![]), "[]");
    assert_eq!(
        aria2_api::text::show_list(&vec!["a".to_string(), "b".to_string(), "c".to_string()]),
        "[a, b, c]"
    );
    assert_eq!(
        aria2_api::records::show_version("1", "[]"),
        "Version:\n  version: 1\n  enabled features: []"
    );
    assert_eq!(
        aria2_api::response::show_error(0, "None", "None"),
        "code: 0, message: None, data: None"
    );
    assert_eq!(
        aria2_api::response::show_response("A", "B", "C", "D", "E", "F"),
        "result: A\nerror: B\njsonrpc: C\nid: D\nmethod: E\nparams: F"
    );
}

#[test]
fn printable_strings_are_shown_between_quotes() {
    let printable: String = (' '..='~').filter(|c| *c != '"' && *c != '\\').collect();
    let e = ErrorObject { code: 7, message: Some(printable.clone()), data: Some(String::new()) };
    assert_eq!(
        e.to_string(),
        format!("code: 7, message: Some(\"{}\"), data: Some(\"\")", printable)
    );
    assert_eq!(s(&printable).to_debug(), format!("String(\"{}\")", printable));
    let escaped = ErrorObject { code: 7, message: Some("a\n\"\\".to_string()), data: None };
    assert_eq!(
        escaped.to_string(),
        "code: 7, message: Some(\"a\\n\\\"\\\\\"), data: None"
    );
}
