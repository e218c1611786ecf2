use aria2_api::{
    awaited_id, call_sent, CallError, CallStep, Client, Incoming, JsonValue, Method, ReadAction,
    ReadFailure, RequestObject, ResponseObject, WaitOutcome, CALL_TIMEOUT_SECS,
};

fn response(id: Option<&str>) -> ResponseObject {
    ResponseObject {
        result: Some(JsonValue::String("OK".to_string())),
        error: None,
        jsonrpc: "2.0".to_string(),
        id: id.map(|id| id.to_string()),
        method: None,
        params: None,
    }
}

fn read(client: &mut Client<u32>, id: &str) -> ReadAction<u32> {
    client.read_message(Incoming::Response(response(Some(id))))
}

fn not_found(action: ReadAction<u32>) -> bool {
    matches!(action, ReadAction::Panic(ReadFailure::WaiterNotFound))
}

fn waiter(action: ReadAction<u32>) -> u32 {
    match action {
        ReadAction::Reply(waiter, _) => waiter,
        _ => panic!("no waiter"),
    }
}

#[test]
fn a_response_reaches_its_waiter() {
    let mut client: Client<u32> = Client::new(Some("secret"));
    let first = client.get_version();
    let second = client.tell_status("g");
    let third = client.pause("g");
    client.write_message(&first, 10);
    client.write_message(&second, 20);
    assert!(client.message_written(&first, true));
    client.write_message(&third, 30);
    match read(&mut client, "2") {
        ReadAction::Reply(20, res) => assert_eq!(res.id.as_deref(), Some("2")),
        _ => panic!("not handed to its waiter"),
    }
    assert_eq!(waiter(read(&mut client, "1")), 10);
    assert_eq!(waiter(read(&mut client, "3")), 30);
}

#[test]
fn a_response_is_handed_over_once() {
    let mut client: Client<u32> = Client::new(None);
    let req = client.get_version();
    client.write_message(&req, 10);
    assert_eq!(waiter(read(&mut client, "1")), 10);
    assert!(not_found(read(&mut client, "1")));
}

#[test]
fn nothing_waits_for_an_unknown_id() {
    let mut client: Client<u32> = Client::new(None);
    assert!(not_found(read(&mut client, "1")));
    assert!(not_found(read(&mut client, "")));
    let req = client.get_version();
    client.write_message(&req, 10);
    assert!(not_found(read(&mut client, "01")));
    assert_eq!(waiter(read(&mut client, "1")), 10);
}

#[test]
fn a_failed_write_is_undone() {
    let mut client: Client<u32> = Client::new(None);
    let kept = client.get_version();
    let lost = client.get_version();
    client.write_message(&kept, 10);
    client.write_message(&lost, 20);
    assert!(!client.message_written(&lost, false));
    assert!(not_found(read(&mut client, "2")));
    assert_eq!(waiter(read(&mut client, "1")), 10);
}

#[test]
fn a_later_waiter_takes_the_place_of_an_earlier_one() {
    let mut client: Client<u32> = Client::new(None);
    let req = client.get_version();
    client.write_message(&req, 10);
    client.write_message(&req, 20);
    assert_eq!(waiter(read(&mut client, "1")), 20);
    assert!(not_found(read(&mut client, "1")));
}

#[test]
fn notifications_are_not_waited_for() {
    let mut client: Client<u32> = Client::new(None);
    let none = RequestObject::new(Method::GetVersion, JsonValue::Array(vec![]), None);
    let empty = RequestObject::new(Method::GetVersion, JsonValue::Array(vec![]), Some(String::new()));
    assert!(client.write_message(&none, 1).ends_with(r#","id":null}"#));
    assert!(client.write_message(&empty, 2).ends_with(r#","id":""}"#));
    assert!(not_found(read(&mut client, "")));
    assert!(!client.message_written(&none, false));
    assert_eq!(awaited_id(&none), None);
    assert_eq!(awaited_id(&empty), None);
    assert!(matches!(call_sent(None, true), CallStep::Done(Ok(None))));
    assert!(matches!(call_sent(None, false), CallStep::Done(Err(CallError::Closed))));
}

#[test]
fn what_the_server_tells_is_passed_on() {
    let mut client: Client<u32> = Client::new(None);
    let req = client.get_version();
    client.write_message(&req, 10);
    let mut told = response(None);
    told.method = Some("aria2.onDownloadStart".to_string());
    match client.read_message(Incoming::Response(told)) {
        ReadAction::Notify(res) => {
            assert_eq!(res.method.as_deref(), Some("aria2.onDownloadStart"))
        }
        _ => panic!("not passed on"),
    }
    assert!(matches!(client.read_message(Incoming::Other), ReadAction::Skip));
    assert!(matches!(client.read_message(Incoming::Undecodable), ReadAction::Skip));
    assert!(matches!(client.read_message(Incoming::End), ReadAction::Stop));
    assert!(matches!(
        client.read_message(Incoming::Broken),
        ReadAction::Panic(ReadFailure::Broken)
    ));
    assert_eq!(waiter(read(&mut client, "1")), 10);
}

#[test]
fn a_call_waits_ten_seconds() {
    let mut client: Client<u32> = Client::new(None);
    let req = client.get_version();
    let awaited = awaited_id(&req);
    assert_eq!(awaited.as_deref(), Some("1"));
    assert!(matches!(call_sent(awaited.clone(), false), CallStep::Done(Err(CallError::Closed))));
    match call_sent(awaited, true) {
        CallStep::Wait { id, seconds } => {
            assert_eq!(id, "1");
            assert_eq!(seconds, 10);
            assert_eq!(seconds, CALL_TIMEOUT_SECS);
        }
        _ => panic!("does not wait"),
    }
}

#[test]
fn waiting_ends() {
    let mut client: Client<u32> = Client::new(None);
    let req = client.get_version();
    client.write_message(&req, 10);
    match client.call_waited("1", WaitOutcome::Response(response(Some("1")))) {
        Ok(Some(res)) => assert_eq!(res.id.as_deref(), Some("1")),
        _ => panic!("no response"),
    }
    assert!(matches!(
        client.call_waited("1", WaitOutcome::Dropped),
        Err(CallError::Dropped)
    ));
    assert!(matches!(
        client.call_waited("2", WaitOutcome::TimedOut),
        Err(CallError::TimedOut)
    ));
    assert_eq!(waiter(read(&mut client, "1")), 10);
}

#[test]
fn a_response_can_come_too_late() {
    let mut client: Client<u32> = Client::new(None);
    let req = client.get_version();
    client.write_message(&req, 10);
    assert!(matches!(
        client.call_waited("1", WaitOutcome::TimedOut),
        Err(CallError::TimedOut)
    ));
    assert!(not_found(read(&mut client, "1")));
}

#[test]
fn an_ended_call_leaves_no_trace_among_others() {
    let mut client: Client<u32> = Client::new(None);
    let requests: Vec<RequestObject> = (0..5).map(|_| client.get_version()).collect();
    for (req, waiter) in requests.iter().zip([10, 20, 30, 40, 50]) {
        client.write_message(req, waiter);
    }
    assert!(client.message_written(&requests[0], true));
    assert!(!client.message_written(&requests[1], false));
    assert_eq!(waiter(read(&mut client, "5")), 50);
    assert!(client.call_waited("3", WaitOutcome::TimedOut).is_err());
    assert!(matches!(client.read_message(Incoming::Other), ReadAction::Skip));
    assert_eq!(waiter(read(&mut client, "1")), 10);
    assert_eq!(client.next_id(), "6");
    for id in ["1", "2", "3", "5"] {
        assert!(not_found(read(&mut client, id)));
    }
    assert_eq!(waiter(read(&mut client, "4")), 40);
}

#[test]
fn a_request_can_be_taken_up_too_late() {
    let mut client: Client<u32> = Client::new(None);
    let answered = client.get_version();
    let unsent = client.get_version();
    assert!(client.call_waited("1", WaitOutcome::TimedOut).is_err());
    assert!(client.call_waited("2", WaitOutcome::TimedOut).is_err());
    client.write_message(&answered, 10);
    client.write_message(&unsent, 20);
    assert!(!client.message_written(&unsent, false));
    assert!(not_found(read(&mut client, "2")));
    assert_eq!(waiter(read(&mut client, "1")), 10);
}
