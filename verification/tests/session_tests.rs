use infer_intf::dispatch::Notification;
use infer_intf::dispatch::ProgressStage;
use infer_intf::dispatch::ProgressToken;
use infer_intf::session::FrameKind;
use infer_intf::session::InboundMessage;
use infer_intf::session::LoopControl;
use infer_intf::session::PendingTable;
use infer_intf::session::ResponseOutcome;
use infer_intf::session::RouteOutcome;
use infer_intf::session::SessionEngine;
use infer_intf::session::SessionInput;
use infer_intf::session::classify_frame;
use infer_intf::session::match_response;
use infer_intf::session::send_request;

#[test]
fn classify_all_shapes() {
    assert_eq!(classify_frame(true, true), FrameKind::Request);
    assert_eq!(classify_frame(true, false), FrameKind::Response);
    assert_eq!(classify_frame(false, true), FrameKind::Notification);
    assert_eq!(classify_frame(false, false), FrameKind::Malformed);
}

#[test]
fn matching_response_resolves_exactly_once() {
    let mut table: PendingTable<&'static str> = PendingTable::new();
    let id = table.register("first completion");
    assert_eq!(id, 0);
    assert_eq!(table.resolve(id), Some("first completion"));
    // the id left the table with the first resolution
    assert_eq!(table.resolve(id), None);
}

#[test]
fn ids_are_fresh_and_increasing() {
    let mut table: PendingTable<u32> = PendingTable::new();
    let a = table.register(10);
    let b = table.register(20);
    let c = table.register(30);
    assert_eq!((a, b, c), (0, 1, 2));
    // resolving does not recycle ids
    assert_eq!(table.resolve(b), Some(20));
    let d = table.register(40);
    assert_eq!(d, 3);
}

#[test]
fn unmatched_response_is_discarded() {
    let mut table: PendingTable<u32> = PendingTable::new();
    let id = table.register(5);
    assert_eq!(table.resolve(id + 1), None);
    // the pending request is untouched
    assert_eq!(table.resolve(id), Some(5));
}

#[test]
fn response_payload_is_delivered_with_the_completion() {
    let mut table: PendingTable<&'static str> = PendingTable::new();
    let id = table.register("completion");
    let delivered = match_response(
        &mut table,
        id,
        ResponseOutcome::Success(String::from("\"val f : int -> int\"")),
    );
    assert_eq!(
        delivered,
        Some((
            "completion",
            ResponseOutcome::Success(String::from("\"val f : int -> int\""))
        ))
    );
    let again = match_response(&mut table, id, ResponseOutcome::Success(String::from("x")));
    assert_eq!(again, None);
}

#[test]
fn sending_a_request_stores_its_completion_under_a_fresh_id() {
    let mut table: PendingTable<&'static str> = PendingTable::new();
    let req = send_request(
        &mut table,
        String::from("textDocument/formatting"),
        "formatting completion",
    );
    assert_eq!(req.method, "textDocument/formatting");
    assert_eq!(req.id, 0);
    let delivered = match_response(
        &mut table,
        req.id,
        ResponseOutcome::Success(String::from("[]")),
    );
    assert_eq!(
        delivered,
        Some(("formatting completion", ResponseOutcome::Success(String::from("[]"))))
    );
    // the completion resolved with the first response; the id is gone
    let again = match_response(&mut table, req.id, ResponseOutcome::Success(String::from("[]")));
    assert_eq!(again, None);
}

#[test]
fn remote_error_payload_is_delivered_as_typed_failure() {
    let mut table: PendingTable<u32> = PendingTable::new();
    let id = table.register(9);
    let delivered = match_response(
        &mut table,
        id,
        ResponseOutcome::RemoteError(-32601, String::from("method not found")),
    );
    assert_eq!(
        delivered,
        Some((9, ResponseOutcome::RemoteError(-32601, String::from("method not found"))))
    );
}

#[test]
fn terminating_fails_every_pending_completion() {
    let mut table: PendingTable<&'static str> = PendingTable::new();
    let a = table.register("a");
    let b = table.register("b");
    let c = table.register("c");
    assert_eq!(table.resolve(b), Some("b"));
    let failed = table.fail_all();
    // both still-pending completions come back, each exactly once
    let mut ids: Vec<u64> = failed.iter().map(|p| p.0).collect();
    ids.sort();
    assert_eq!(ids, vec![a, c]);
    assert!(failed.contains(&(a, "a")));
    assert!(failed.contains(&(c, "c")));
    // nothing is pending afterwards
    assert_eq!(table.resolve(a), None);
    assert_eq!(table.resolve(c), None);
    assert_eq!(table.fail_all(), vec![]);
}

#[test]
fn engine_routes_responses_and_halts_only_on_stop() {
    let mut engine: SessionEngine<&'static str, u8> = SessionEngine::new(1);
    let id = engine.table.register("pending");
    let (control, routed) = engine.handle_input(SessionInput::Frame(InboundMessage::ResponseMsg {
        id,
        payload: ResponseOutcome::Success(String::from("ok")),
    }));
    assert_eq!(control, LoopControl::Proceed);
    assert!(matches!(
        routed,
        RouteOutcome::Deliver { completion: "pending", .. }
    ));

    let (control, routed) = engine.handle_input(SessionInput::Frame(InboundMessage::ResponseMsg {
        id: 77,
        payload: ResponseOutcome::Success(String::from("stray")),
    }));
    assert_eq!(control, LoopControl::Proceed);
    assert!(matches!(routed, RouteOutcome::Discard));

    let (control, routed) = engine.handle_input(SessionInput::Frame(InboundMessage::RequestMsg {
        id: 3,
        method: String::from("workspace/configuration"),
    }));
    assert_eq!(control, LoopControl::Proceed);
    assert!(matches!(routed, RouteOutcome::RejectRequest { id: 3 }));

    let (control, routed) = engine.handle_input(SessionInput::Frame(InboundMessage::MalformedMsg));
    assert_eq!(control, LoopControl::Proceed);
    assert!(matches!(routed, RouteOutcome::Discard));

    let (control, routed) = engine.handle_input(SessionInput::Stop);
    assert_eq!(control, LoopControl::Halt);
    assert!(matches!(routed, RouteOutcome::Ignored));
}

#[test]
fn engine_fires_indexing_signal_through_notifications() {
    let mut engine: SessionEngine<u32, &'static str> = SessionEngine::new("armed");
    let (_, routed) = engine.handle_input(SessionInput::Frame(InboundMessage::NotificationMsg {
        note: Notification::Progress(
            ProgressToken::Text(String::from("indexing")),
            ProgressStage::End,
        ),
    }));
    assert!(matches!(routed, RouteOutcome::IndexedSignal { signal: "armed" }));
    // a duplicate completion notification is a no-op
    let (_, routed) = engine.handle_input(SessionInput::Frame(InboundMessage::NotificationMsg {
        note: Notification::Progress(
            ProgressToken::Text(String::from("indexing")),
            ProgressStage::End,
        ),
    }));
    assert!(matches!(routed, RouteOutcome::Ignored));
}
