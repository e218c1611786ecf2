use aria2_api::{new_params, Client, JsonValue, Method, RequestObject};

fn client(secret: Option<&str>) -> Client<u32> {
    Client::new(secret)
}

fn text(mut client: Client<u32>, req: RequestObject) -> String {
    client.write_message(&req, 0)
}

#[test]
fn test_enum() {
    println!("{:?}", <Method as Into<&str>>::into(Method::AddUri));
    assert_eq!(<Method as Into<&str>>::into(Method::AddUri), "aria2.addUri");
}

#[test]
fn every_method_has_its_name() {
    let names: Vec<&str> = vec![
        Method::AddUri.into(),
        Method::Remove.into(),
        Method::Pause.into(),
        Method::Unpause.into(),
        Method::TellStatus.into(),
        Method::GetGlobalStat.into(),
        Method::GetVersion.into(),
        Method::PurgeDownloadResult.into(),
    ];
    assert_eq!(
        names,
        vec![
            "aria2.addUri",
            "aria2.remove",
            "aria2.pause",
            "aria2.unpause",
            "aria2.tellStatus",
            "aria2.getGlobalStat",
            "aria2.getVersion",
            "aria2.purgeDownloadResult",
        ]
    );
}

#[test]
fn requests_read_on_the_wire() {
    let mut c = client(None);
    let req = c.get_version();
    assert_eq!(
        text(c, req),
        r#"{"jsonrpc":"2.0","method":"aria2.getVersion","params":[],"id":"1"}"#
    );

    let mut c = client(Some("s3"));
    let req = c.add_uri("http://example.org/a");
    assert_eq!(
        text(c, req),
        r#"{"jsonrpc":"2.0","method":"aria2.addUri","params":["token:s3",["http://example.org/a"]],"id":"1"}"#
    );

    let mut c = client(Some("s3"));
    let req = c.remove("2089b05ecca3d829");
    assert_eq!(
        text(c, req),
        r#"{"jsonrpc":"2.0","method":"aria2.remove","params":["token:s3","2089b05ecca3d829"],"id":"1"}"#
    );

    let mut c = client(None);
    let req = c.pause("g");
    assert_eq!(
        text(c, req),
        r#"{"jsonrpc":"2.0","method":"aria2.pause","params":["g"],"id":"1"}"#
    );

    let mut c = client(None);
    let req = c.unpause("g");
    assert_eq!(
        text(c, req),
        r#"{"jsonrpc":"2.0","method":"aria2.unpause","params":["g"],"id":"1"}"#
    );

    let mut c = client(None);
    let req = c.tell_status("g");
    assert_eq!(
        text(c, req),
        r#"{"jsonrpc":"2.0","method":"aria2.tellStatus","params":["g"],"id":"1"}"#
    );

    let mut c = client(Some("t"));
    let req = c.get_global_stat();
    assert_eq!(
        text(c, req),
        r#"{"jsonrpc":"2.0","method":"aria2.getGlobalStat","params":["token:t"],"id":"1"}"#
    );

    let mut c = client(None);
    let req = c.purge_download_result();
    assert_eq!(
        text(c, req),
        r#"{"jsonrpc":"2.0","method":"aria2.purgeDownloadResult","params":[],"id":"1"}"#
    );
}

#[test]
fn texts_are_escaped_on_the_wire() {
    let mut c = client(Some("a\"b\\c"));
    let req = c.pause("line\nfeed \u{1} \u{e9}");
    assert_eq!(
        text(c, req),
        "{\"jsonrpc\":\"2.0\",\"method\":\"aria2.pause\",\"params\":[\"token:a\\\"b\\\\c\",\"line\\nfeed \\u0001 \u{e9}\"],\"id\":\"1\"}"
    );
}

#[test]
fn any_json_can_be_a_parameter() {
    let params = JsonValue::Object(vec![
        ("z".to_string(), JsonValue::Bool(true)),
        ("n".to_string(), JsonValue::Number(serde_json::Number::from(-7))),
        ("z".to_string(), JsonValue::Bool(false)),
        ("a".to_string(), JsonValue::Array(vec![JsonValue::Null])),
    ]);
    let req = RequestObject::new(Method::GetVersion, params, None);
    assert_eq!(
        req.to_text(),
        r#"{"jsonrpc":"2.0","method":"aria2.getVersion","params":{"a":[null],"n":-7,"z":false},"id":null}"#
    );
}

#[test]
fn only_an_id_makes_a_request() {
    let none = RequestObject::new(Method::GetVersion, JsonValue::Array(vec![]), None);
    assert!(!none.is_request());
    let empty = RequestObject::new(Method::GetVersion, JsonValue::Null, Some(String::new()));
    assert!(!empty.is_request());
    let some = RequestObject::new(Method::GetVersion, JsonValue::Null, Some("x".to_string()));
    assert!(some.is_request());
    assert_eq!(some.id(), "x");
    assert_eq!(some.jsonrpc, "2.0");
    assert_eq!(some.method, "aria2.getVersion");
}

#[test]
fn the_token_comes_first() {
    assert!(new_params(None).is_empty());
    let params = new_params(Some("abc"));
    assert_eq!(params.len(), 1);
    assert!(matches!(&params[0], JsonValue::String(s) if s == "token:abc"));
    let params = new_params(Some(""));
    assert!(matches!(&params[0], JsonValue::String(s) if s == "token:"));
}

#[test]
fn ids_count_up_from_one() {
    let mut c = client(None);
    for n in 1..=120u32 {
        assert_eq!(c.next_id(), n.to_string());
    }
    assert_eq!(c.get_version().id(), "121");
    assert_eq!(c.pause("g").id(), "122");
}

#[test]
fn members_are_framed() {
    assert_eq!(
        aria2_api::request::frame("A", "B", "C", "D"),
        r#"{"jsonrpc":A,"method":B,"params":C,"id":D}"#
    );
}

#[test]
fn a_borrowed_method_has_its_name() {
    let method = Method::TellStatus;
    let name: &'static str = (&method).into();
    assert_eq!(name, "aria2.tellStatus");
    let name: &'static str = method.into();
    assert_eq!(name, "aria2.tellStatus");
}

#[test]
fn requests_are_shown_for_debugging() {
    let mut c = client(Some("s3"));
    let req = c.pause("g");
    assert_eq!(
        req.to_debug(),
        "RequestObject { jsonrpc: \"2.0\", method: \"aria2.pause\", \
         params: Array [String(\"token:s3\"), String(\"g\")], id: Some(\"1\") }"
    );
    assert_eq!(
        aria2_api::request::show_request("A", "B", "C", "D"),
        "RequestObject { jsonrpc: A, method: B, params: C, id: D }"
    );
}

#[test]
fn every_escape_is_written() {
    let text = "\"\\\u{8}\t\n\u{c}\r\u{0}\u{1f}\u{7f}/'\u{4f60}\u{1f600}";
    assert_eq!(
        JsonValue::String(text.to_string()).to_text(),
        "\"\\\"\\\\\\b\\t\\n\\f\\r\\u0000\\u001f\u{7f}/'\u{4f60}\u{1f600}\""
    );
    assert_eq!(
        JsonValue::Array(vec![
            JsonValue::Bool(true),
            JsonValue::Bool(false),
            JsonValue::Null,
            JsonValue::Array(vec![]),
        ])
        .to_text(),
        "[true,false,null,[]]"
    );
}
