use rocust::endpoint::EndPoint;
use rocust::master::{
    workers_count_warning, ControlWebSocketMessage, ResultsWebsocketMessage, StartDecision, State,
    WS_ENDPOINT,
};
use rocust::results::{Measurement, SentResults};
use rocust::status::Status;
use rocust::test::Test;
use rocust::worker::{
    announcement, websocket_base, UrlOrigin, UrlParseError, Worker, WorkerCommand, WorkerUrlError,
};

fn test_with_users(user_count: u32) -> Test {
    Test::new(
        String::from("t"),
        user_count,
        Some(30),
        (1, 3),
        String::from("http://h"),
        vec![
            EndPoint::new_get(String::from("/a"), None, None),
            EndPoint::new_get(String::from("/b"), None, None),
        ],
        None,
        false,
    )
}

fn sent(n: u32) -> SentResults {
    SentResults {
        total_requests: n,
        total_failed_requests: 1,
        total_connection_errors: 2,
        total_response_time: 10 * n,
    }
}

#[test]
fn workers_count_is_clamped_to_users() {
    let (state, clamped) = State::new(5, test_with_users(3));
    assert!(clamped);
    assert_eq!(state.get_workers_count(), 3);
    assert_eq!(state.get_remaining_users_count(), 3);
    assert_eq!(state.get_connected_workers_count(), 0);
    assert!(matches!(state.get_status(), Status::Created));
    let (state, clamped) = State::new(2, test_with_users(3));
    assert!(!clamped);
    assert_eq!(state.get_workers_count(), 2);
}

#[test]
fn users_are_split_with_remainder_to_last_worker() {
    // 21 users on 2 workers: 10 then 11
    let (mut state, _) = State::new(2, test_with_users(21));
    let mut copy = test_with_users(21);
    let (first, start) = state.worker_connected(&mut copy);
    assert_eq!(first, 10);
    assert_eq!(copy.get_user_count(), 10);
    assert!(!start);
    let mut copy = test_with_users(21);
    let (second, start) = state.worker_connected(&mut copy);
    assert_eq!(second, 11);
    assert!(start);
    assert_eq!(state.get_remaining_users_count(), 0);
    // a late worker gets nobody
    let mut copy = test_with_users(21);
    let (third, start) = state.worker_connected(&mut copy);
    assert_eq!(third, 0);
    assert!(!start);
}

#[test]
fn uneven_split_leaves_users_unassigned() {
    // 5 users on 3 workers: the remainder (2) is not smaller than the share (1)
    let (mut state, _) = State::new(3, test_with_users(5));
    let mut total = 0;
    for _ in 0..3 {
        let mut copy = test_with_users(5);
        total += state.set_test_workers_count(&mut copy);
    }
    assert_eq!(total, 3);
    assert_eq!(state.get_remaining_users_count(), 2);
}

#[test]
fn one_user_per_worker() {
    let (mut state, _) = State::new(4, test_with_users(4));
    for _ in 0..4 {
        let mut copy = test_with_users(4);
        assert_eq!(state.set_test_workers_count(&mut copy), 1);
    }
    assert_eq!(state.get_remaining_users_count(), 0);
}

#[test]
fn connected_counter_wraps_like_an_atomic() {
    let (mut state, _) = State::new(1, test_with_users(1));
    state.decrease_connected_workers_count();
    assert_eq!(state.get_connected_workers_count(), u32::MAX);
    state.increase_connected_workers_count();
    assert_eq!(state.get_connected_workers_count(), 0);
    state.set_remaining_users_count(7);
    assert_eq!(state.get_remaining_users_count(), 7);
}

#[test]
fn reports_are_added_per_url() {
    let (mut state, _) = State::new(1, test_with_users(2));
    let msg = ResultsWebsocketMessage::new(
        sent(4),
        vec![(String::from("/b"), sent(3)), (String::from("/zzz"), sent(9))],
    );
    assert!(state.fits(&msg));
    state.combine_results(msg);
    let t = &state.test;
    assert_eq!(t.get_results().total_requests, 4);
    assert_eq!(t.get_results().total_response_time, 40);
    assert_eq!(t.get_endpoints()[0].results.total_requests, 0);
    assert_eq!(t.get_endpoints()[1].results.total_requests, 3);
    assert_eq!(t.get_endpoints()[1].results.total_connection_errors, 2);
    let big = ResultsWebsocketMessage::new(
        SentResults {
            total_requests: u32::MAX,
            total_failed_requests: 0,
            total_connection_errors: 0,
            total_response_time: 0,
        },
        vec![],
    );
    assert!(!state.fits(&big));
}

#[test]
fn master_stop_and_finish_broadcast() {
    let (mut state, _) = State::new(1, test_with_users(1));
    assert!(matches!(state.stop(), ControlWebSocketMessage::Stop));
    assert!(matches!(state.get_status(), Status::Stopped));
    assert!(matches!(state.finish(), ControlWebSocketMessage::Finish));
    assert!(matches!(state.get_status(), Status::Finished));
    state.set_status(Status::Running);
    assert!(matches!(state.get_status(), Status::Running));
}

#[test]
fn worker_parses_master_addresses() {
    assert_eq!(WS_ENDPOINT, "ws");
    let w = Worker::new(String::from("w"), String::from("http://127.0.0.1:3000"), false);
    assert_eq!(w.parse_url().unwrap(), "ws://127.0.0.1:3000/ws");
    let w = Worker::new(String::from("w"), String::from("https://example.com"), false);
    assert_eq!(w.parse_url().unwrap(), "wss://example.com/ws");
    let w = Worker::new(String::from("w"), String::from("http://example.com:80/x/y"), false);
    assert_eq!(w.parse_url().unwrap(), "ws://example.com/ws");
}

#[test]
fn worker_rejects_other_schemes() {
    let w = Worker::new(String::from("w"), String::from("ws://127.0.0.1:3000/ws"), false);
    match w.parse_url() {
        Err(WorkerUrlError::UnknownScheme(s)) => assert_eq!(s, "ws"),
        other => panic!("unexpected {:?}", other),
    }
    let w = Worker::new(String::from("w"), String::from("not an address"), false);
    let e = w.parse_url().unwrap_err();
    assert!(matches!(e, WorkerUrlError::Parse(_)));
    assert_eq!(e.message(), "relative URL without a base");
    let w = Worker::new(String::from("w"), String::from("data:text/plain,hi"), false);
    match w.parse_url() {
        Err(WorkerUrlError::InvalidUrl(u)) => assert_eq!(u, "data:text/plain,hi"),
        other => panic!("unexpected {:?}", other),
    }
}

#[test]
fn websocket_base_from_origin() {
    let o = UrlOrigin {
        serialized: String::from("https://h:8443/"),
        tuple: Some((String::from("https"), String::from("h"), 8443)),
    };
    assert_eq!(websocket_base(o).unwrap(), "wss://h:8443");
    let o = UrlOrigin {
        serialized: String::from("ftp://h/"),
        tuple: Some((String::from("ftp"), String::from("h"), 21)),
    };
    let e = websocket_base(o).unwrap_err();
    assert_eq!(e.message(), "Unknown scheme: ftp");
    let o = UrlOrigin { serialized: String::from("x:y"), tuple: None };
    assert_eq!(websocket_base(o).unwrap_err().message(), "Invalid url: x:y");
}

#[test]
fn worker_follows_control_messages() {
    let mut w = Worker::new(String::from("w"), String::from("http://m"), true);
    let mut slot: Option<Test> = None;
    assert_eq!(w.handle_message(&mut slot, ControlWebSocketMessage::Start), WorkerCommand::Nothing);
    assert!(matches!(w.get_status(), Status::Running));
    let mut t = test_with_users(2);
    t.create_users();
    assert_eq!(
        w.handle_message(&mut slot, ControlWebSocketMessage::Create(t)),
        WorkerCommand::Nothing
    );
    let stored = slot.as_ref().unwrap();
    assert_eq!(*stored.get_run_time(), None);
    assert!(stored.print_stats_to_console);
    assert_eq!(w.handle_message(&mut slot, ControlWebSocketMessage::Start), WorkerCommand::RunTest);
    let report = ResultsWebsocketMessage::new(sent(1), vec![]);
    assert_eq!(
        w.handle_message(&mut slot, ControlWebSocketMessage::Update(report)),
        WorkerCommand::Nothing
    );
    assert_eq!(w.handle_message(&mut slot, ControlWebSocketMessage::Stop), WorkerCommand::Stop);
    assert!(matches!(w.get_status(), Status::Stopped));
    assert!(matches!(slot.as_ref().unwrap().get_status(), Status::Stopped));
    assert_eq!(w.handle_message(&mut slot, ControlWebSocketMessage::Finish), WorkerCommand::Finish);
    assert!(matches!(w.get_status(), Status::Finished));
    for u in slot.as_ref().unwrap().get_users() {
        assert!(matches!(u.get_status(), Status::Stopped));
    }
}

#[test]
fn worker_reports_its_test() {
    let w = Worker::new(String::from("w"), String::from("http://m"), false);
    assert!(w.create_results_websocket_message(&None).is_none());
    let mut t = test_with_users(1);
    t.create_users();
    t.record(0, 1, Measurement::ResponseTime(5));
    let slot = Some(t);
    let msg = w.create_results_websocket_message(&slot).unwrap();
    assert_eq!(msg.agg_sent_results.total_requests, 1);
    assert_eq!(msg.endpoints_sent_results.len(), 2);
    assert_eq!(msg.endpoints_sent_results[1].0, "/b");
    assert_eq!(msg.endpoints_sent_results[1].1.total_response_time, 5);
}

#[test]
fn closing_the_connection_stops_the_worker() {
    let mut w = Worker::new(String::from("w"), String::from("http://m"), false);
    let mut slot = Some(test_with_users(1));
    assert_eq!(w.connection_closed(&mut slot), WorkerCommand::Stop);
    assert!(matches!(w.get_status(), Status::Stopped));
    assert!(matches!(slot.unwrap().get_status(), Status::Stopped));
    assert_eq!(w.get_id(), "w");
}

#[test]
fn start_signal_sets_start_or_aborts() {
    let (mut state, _) = State::new(1, test_with_users(1));
    let now = std::time::Instant::now();
    match state.on_start_signal(true, now) {
        StartDecision::Broadcast(m) => assert!(matches!(m, ControlWebSocketMessage::Start)),
        other => panic!("unexpected {:?}", other),
    }
    assert_eq!(*state.test.get_start_timestamp(), Some(now));
    let (mut state, _) = State::new(1, test_with_users(1));
    match state.on_start_signal(false, now) {
        StartDecision::Abort(text) => {
            assert_eq!(text, "Error sending message to main thread, test will not start")
        }
        other => panic!("unexpected {:?}", other),
    }
    match state.get_status() {
        Status::Error(e) => assert_eq!(e, "Error sending message to main thread, test will not start"),
        other => panic!("unexpected {:?}", other),
    }
    assert!(state.test.get_start_timestamp().is_none());
}

#[test]
fn log_texts_for_master_and_worker() {
    assert_eq!(
        workers_count_warning(21),
        "Workers count is greater than user count. Workers count will be set to [21]"
    );
    assert_eq!(
        announcement(&ControlWebSocketMessage::Create(test_with_users(7))).unwrap(),
        "Creating Test with [7] users"
    );
    assert_eq!(announcement(&ControlWebSocketMessage::Start).unwrap(), "Starting test");
    assert_eq!(announcement(&ControlWebSocketMessage::Stop).unwrap(), "Stopping test");
    assert_eq!(announcement(&ControlWebSocketMessage::Finish).unwrap(), "Finishing test");
    assert!(announcement(&ControlWebSocketMessage::Update(ResultsWebsocketMessage::new(sent(1), vec![])))
        .is_none());
}

#[test]
fn worker_copies_of_the_test_split_users() {
    let (mut state, _) = State::new(2, test_with_users(21));
    let mut total = 0;
    for _ in 0..2 {
        let mut copy = state.test.clone();
        total += state.worker_connected(&mut copy).0;
        assert_eq!(copy.get_id(), "t");
        assert_eq!(copy.get_endpoints().len(), 2);
    }
    assert_eq!(total, 21);
}

#[test]
fn parse_error_texts_follow_the_url_crate() {
    let w = Worker::new(String::from("w"), String::from("http://h:99999"), false);
    assert_eq!(w.parse_url().unwrap_err().message(), "invalid port number");
    let w = Worker::new(String::from("w"), String::from("http://[::1"), false);
    assert_eq!(w.parse_url().unwrap_err().message(), "invalid IPv6 address");
    let all = [
        UrlParseError::EmptyHost,
        UrlParseError::IdnaError,
        UrlParseError::InvalidPort,
        UrlParseError::InvalidIpv4Address,
        UrlParseError::InvalidIpv6Address,
        UrlParseError::InvalidDomainCharacter,
        UrlParseError::RelativeUrlWithoutBase,
        UrlParseError::RelativeUrlWithCannotBeABaseBase,
        UrlParseError::SetHostOnCannotBeABaseUrl,
        UrlParseError::Overflow,
    ];
    let originals = [
        url::ParseError::EmptyHost,
        url::ParseError::IdnaError,
        url::ParseError::InvalidPort,
        url::ParseError::InvalidIpv4Address,
        url::ParseError::InvalidIpv6Address,
        url::ParseError::InvalidDomainCharacter,
        url::ParseError::RelativeUrlWithoutBase,
        url::ParseError::RelativeUrlWithCannotBeABaseBase,
        url::ParseError::SetHostOnCannotBeABaseUrl,
        url::ParseError::Overflow,
    ];
    for (k, e) in all.iter().zip(originals.iter()) {
        assert_eq!(k.describe().unwrap(), e.to_string());
        assert_eq!(WorkerUrlError::Parse(*e).message(), e.to_string());
    }
    assert!(UrlParseError::Other.describe().is_none());
}
