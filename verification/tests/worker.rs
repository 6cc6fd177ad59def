use dns_forward_over_tcp::packet::{parse_view, refusal_for};
use dns_forward_over_tcp::worker::{
    is_benign_disconnect, FailureKind, LogRecord, QueryEvent, QueryTask, RecordCallback, Uplink,
    WorkerAction,
};

#[test]
fn allowed_query_round_trip() {
    // The scenario the relay exists for: a twelve-byte query goes upstream,
    // a twelve-byte answer comes back byte-identical, and the hook's
    // request/response pair fires exactly once each with the context
    // passed through unmodified.
    let query = refusal_for(0x0625, true);
    assert_eq!(query.len(), 12);
    let answer: Vec<u8> = vec![0x06, 0x25, 0x80, 0, 0, 0, 0, 0, 0, 0, 0, 0];
    let view = parse_view(&query).unwrap();

    let task = QueryTask::<u32>::new(query.clone());
    let mut request_calls = 0;
    let mut response_calls = 0;

    let (task, action) = task.step(QueryEvent::Parsed(view));
    match action {
        WorkerAction::CallRequest(v) => {
            request_calls += 1;
            assert_eq!(v.id, 0x0625);
        }
        _ => panic!("a parsed query goes to the hook first"),
    }

    let (task, action) = task.step(QueryEvent::Verdict(true, Some(77)));
    assert!(matches!(action, WorkerAction::ForwardQuery));
    assert_eq!(task.query_bytes(), &query);

    let (task, action) = task.step(QueryEvent::ForwardOk(answer.clone()));
    match action {
        WorkerAction::DeliverAnswer(bytes, context) => {
            response_calls += 1;
            assert_eq!(bytes, answer);
            assert_eq!(context, Some(77));
        }
        _ => panic!("a forwarded answer is delivered to the client"),
    }

    let (task, action) = task.step(QueryEvent::ReplySent);
    assert!(matches!(action, WorkerAction::Finish));
    assert!(task.is_done());
    assert_eq!(request_calls, 1);
    assert_eq!(response_calls, 1);
}

#[test]
fn denied_query_is_refused_and_never_forwarded() {
    let query = refusal_for(0xBEEF, false);
    let view = parse_view(&query).unwrap();

    let task = QueryTask::<u32>::new(query);
    let (task, _) = task.step(QueryEvent::Parsed(view));
    let (task, action) = task.step(QueryEvent::Verdict(false, Some(5)));
    match action {
        WorkerAction::SendRefusal { id, recursion } => {
            assert_eq!(id, 0xBEEF);
            assert!(!recursion);
        }
        _ => panic!("a vetoed query is refused directly"),
    }

    // Whatever events still arrive, nothing goes toward the uplink.
    let stray = vec![9u8, 9, 9];
    let (task, action) = task.step(QueryEvent::ForwardOk(stray));
    assert!(matches!(action, WorkerAction::Idle));
    let (task, action) = task.step(QueryEvent::ForwardFailed);
    assert!(matches!(action, WorkerAction::Idle));

    let (task, action) = task.step(QueryEvent::ReplySent);
    assert!(matches!(action, WorkerAction::Finish));
    assert!(task.is_done());
}

#[test]
fn unparseable_query_is_forwarded_raw() {
    let raw = vec![0xFFu8, 0xEE, 0xDD];
    let task = QueryTask::<u32>::new(raw.clone());
    let (task, action) = task.step(QueryEvent::ParseFailed);
    assert!(matches!(action, WorkerAction::ForwardQuery));
    assert_eq!(task.query_bytes(), &raw);

    let answer = vec![1u8, 2, 3];
    let (_, action) = task.step(QueryEvent::ForwardOk(answer.clone()));
    match action {
        WorkerAction::DeliverAnswer(bytes, context) => {
            assert_eq!(bytes, answer);
            assert_eq!(context, None);
        }
        _ => panic!("the raw answer still goes back to the client"),
    }
}

#[test]
fn failed_attempts_retry_same_bytes_until_success() {
    let query = vec![3u8; 12];
    let task = QueryTask::<u32>::new(query.clone());
    let (task, _) = task.step(QueryEvent::ParseFailed);

    // The upstream drops the connection twice; each failure asks for
    // another forward of the very same bytes.
    let (task, action) = task.step(QueryEvent::ForwardFailed);
    assert!(matches!(action, WorkerAction::ForwardQuery));
    assert_eq!(task.query_bytes(), &query);
    let (task, action) = task.step(QueryEvent::ForwardFailed);
    assert!(matches!(action, WorkerAction::ForwardQuery));
    assert_eq!(task.query_bytes(), &query);

    // The third attempt succeeds and the client sees only the answer.
    let answer = vec![4u8; 12];
    let (_, action) = task.step(QueryEvent::ForwardOk(answer.clone()));
    match action {
        WorkerAction::DeliverAnswer(bytes, _) => assert_eq!(bytes, answer),
        _ => panic!("the answer of the successful attempt is delivered"),
    }
}

#[test]
fn uplink_reconnects_after_teardown() {
    let mut uplink = Uplink::new();
    assert!(uplink.needs_connect());
    uplink.mark_connected();
    assert!(!uplink.needs_connect());
    uplink.mark_broken();
    assert!(uplink.needs_connect());
}

#[test]
fn benign_resets_are_told_apart() {
    assert!(is_benign_disconnect(&FailureKind::BrokenPipe));
    assert!(is_benign_disconnect(&FailureKind::UnexpectedEof));
    assert!(!is_benign_disconnect(&FailureKind::Other));
}

#[test]
fn sample_hook_admits_every_query_with_a_context() {
    let hook = LogRecord::new();
    let view = parse_view(&refusal_for(1, true)).unwrap();
    let (allow, context) = hook.request(&view);
    assert!(allow);
    assert!(context.is_some());
    hook.response(Some(&view), context);
}
