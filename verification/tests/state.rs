use netx::client::connection::{connect_outcome, NetXClient};
use netx::client::error::Error as ClientError;
use netx::client::option::{ServerOption as ClientOption, TlsConfig};
use netx::client::reading::{ClientAction, ReadLoop, ServerMessage};
use netx::client::request_manager::RequestManager;
use netx::client::result::RetResult;
use netx::client::session::{DefaultSessionStore, SessionSave};
use netx::pending::{PendingCalls, SerialCounter};
use netx::server::handshake::{accept_message, check_command, check_service_name, check_verify_key, refusal_message, Refusal};
use netx::server::option::ServerOption;
use netx::server::reading::{decide, ClientMessage, ServerAction};
use netx::server::token::AsyncToken;
use netx::server::token_manager::AsyncTokenManager;
use netx::timeouts::TimeoutQueue;

type Client = NetXClient<DefaultSessionStore, u32, (), &'static str, (), ()>;

fn option() -> ClientOption {
    ClientOption::new("127.0.0.1:8000".to_string(), "myservice".to_string(), "secret_key".to_string(), 5000)
}

#[test]
fn client_option_text_names_service_and_address() {
    assert_eq!(option().to_string(), "myservice[127.0.0.1:8000]");
    assert_eq!(option().request_out_time_ms, 5000);
}

#[test]
fn server_option_defaults_and_setters() {
    let o = ServerOption::new("0.0.0.0:8000", "myservice", "secret_key");
    assert_eq!(o.addr, "0.0.0.0:8000");
    assert_eq!(o.service_name, "myservice");
    assert_eq!(o.verify_key, "secret_key");
    assert_eq!((o.request_out_time, o.session_save_time, o.max_connections, o.is_nodelay), (5000, 5000, 0, false));
    let o = o.set_session_save_time(100).set_request_out_time(200).set_max_connections(3).set_nodelay(true);
    assert_eq!((o.request_out_time, o.session_save_time, o.max_connections, o.is_nodelay), (200, 100, 3, true));
    assert_eq!(o.service_name, "myservice");
}

#[test]
fn default_session_store_gives_back_what_was_stored() {
    let mut s = DefaultSessionStore::default();
    assert_eq!(s.get_session_id(), 0);
    s.store_session_id(77);
    assert_eq!(s.get_session_id(), 77);
}

#[test]
fn new_client_starts_unconnected_in_mode_zero() {
    let mut c: Client = NetXClient::new(option(), DefaultSessionStore::default());
    assert!(!c.is_connect());
    assert_eq!(c.get_mode(), 0);
    assert!(matches!(c.get_tls_config(), TlsConfig::Plain));
    assert_eq!(c.get_addr_string(), "127.0.0.1:8000");
    assert_eq!(c.get_service_info().verify_key, "secret_key");
    assert_eq!(c.new_serial(), 1);
    assert_eq!(c.new_serial(), 2);
    assert_eq!(c.get_callback_len(), 0);
    c.set_mode(1);
    assert_eq!(c.get_mode(), 1);
    c.store_session_id(9);
    assert_eq!(c.get_session_id(), 9);
}

#[test]
fn calls_need_a_connection_and_a_fresh_serial() {
    let mut c: Client = NetXClient::new(option(), DefaultSessionStore::default());
    assert!(matches!(c.begin_call(1, "a"), Err(ClientError::Error(_))));
    assert_eq!(c.get_callback_len(), 0);
    c.set_network_client(7);
    assert!(c.is_connect());
    assert!(c.begin_call(1, "a").is_ok());
    assert!(matches!(c.begin_call(1, "b"), Err(ClientError::Error(_))));
    assert_eq!(c.get_callback_len(), 1);
    assert_eq!(c.take_waiting(1), Some("a"));
    assert_eq!(c.take_waiting(1), None);
    assert_eq!(c.clean_connect(), Some(7));
    assert!(!c.is_connect());
}

#[test]
fn closing_drops_controller_and_link() {
    let mut c: Client = NetXClient::new(option(), DefaultSessionStore::default());
    c.init(());
    assert!(c.controller().is_some());
    c.set_network_client(3);
    assert_eq!(c.close(), Some(3));
    assert!(c.controller().is_none());
    assert_eq!(c.close(), None);
}

#[test]
fn request_manager_is_set_once() {
    let mut c: Client = NetXClient::new(option(), DefaultSessionStore::default());
    assert!(c.set_request_manager(()).is_ok());
    assert!(c.set_request_manager(()).is_err());
}

#[test]
fn ret_result_check_and_access() {
    let r = RetResult::error(5, "bad".to_string());
    match r.check() {
        Err(ClientError::CallError(id, msg)) => {
            assert_eq!(id, 5);
            assert_eq!(msg, "bad");
        }
        _ => panic!("expected a call error"),
    }
    let mut r = RetResult::success();
    assert_eq!(r.msg, "Success");
    assert!(r.is_empty());
    assert!(r.get(0).is_err());
    assert!(r.first_argument().is_err());
    r.push_argument(vec![1]);
    assert_eq!(r.len(), 1);
    r.get(0).unwrap().push(2);
    assert_eq!(r.index(0), &vec![1, 2]);
    assert_eq!(r.first_argument().ok().unwrap(), &vec![1, 2]);
    assert!(r.check().is_ok());
}

#[test]
fn read_loop_answers_connect_once() {
    let mut l = ReadLoop::new();
    match l.step(ServerMessage::Verified { msg: "ok".into(), mode_one: true }) {
        ClientAction::Accept { switch_to_mode_one, notify_connected } => {
            assert!(switch_to_mode_one && notify_connected)
        }
        _ => panic!(),
    }
    match l.step(ServerMessage::Verified { msg: "ok".into(), mode_one: false }) {
        ClientAction::Accept { switch_to_mode_one, notify_connected } => {
            assert!(!switch_to_mode_one && !notify_connected)
        }
        _ => panic!(),
    }
    match l.step(ServerMessage::Refused { msg: "no".into() }) {
        ClientAction::Refuse { notify, .. } => assert!(!notify),
        _ => panic!(),
    }
}

#[test]
fn read_loop_routes_calls_and_answers() {
    let mut l = ReadLoop::new();
    assert!(matches!(l.step(ServerMessage::Call { tt: 0, cmd: 1, serial: 2 }), ClientAction::Execute { reply: false, .. }));
    assert!(matches!(l.step(ServerMessage::Call { tt: 2, cmd: 1, serial: 2 }), ClientAction::Execute { reply: true, .. }));
    assert!(matches!(l.step(ServerMessage::Call { tt: 3, cmd: 1, serial: 2 }), ClientAction::BadCallType(3)));
    assert!(matches!(l.step(ServerMessage::Reply { serial: 8 }), ClientAction::Deliver(8)));
    assert!(matches!(l.step(ServerMessage::SessionId(5)), ClientAction::StoreSession(5)));
    assert!(matches!(l.step(ServerMessage::Unknown(99)), ClientAction::Stop(99)));
    assert!(l.connect_pending);
    match l.step(ServerMessage::Refused { msg: "no".into() }) {
        ClientAction::Refuse { msg, notify } => {
            assert_eq!(msg, "no");
            assert!(notify);
        }
        _ => panic!(),
    }
}

#[test]
fn server_decides_per_message() {
    assert!(matches!(decide(ClientMessage::SessionRequest), ServerAction::SendSessionId));
    assert!(matches!(decide(ClientMessage::Call { tt: 1, cmd: 4, serial: 5 }), ServerAction::Execute { reply: true, .. }));
    assert!(matches!(decide(ClientMessage::Call { tt: 0, cmd: 4, serial: 5 }), ServerAction::Execute { reply: false, .. }));
    assert!(matches!(decide(ClientMessage::Call { tt: 9, cmd: 4, serial: 5 }), ServerAction::BadCallType(9)));
    assert!(matches!(decide(ClientMessage::Reply { serial: 5 }), ServerAction::Deliver(5)));
    assert!(matches!(decide(ClientMessage::Unknown(7)), ServerAction::Unknown(7)));
}

#[test]
fn timeout_queue_retires_oldest_overdue_entries() {
    let mut q = TimeoutQueue::new();
    q.push(1, 100);
    q.push(2, 200);
    q.push(3, 300);
    assert_eq!(q.expire(250, 100), vec![1]);
    assert_eq!(q.len(), 2);
    assert_eq!(q.expire(250, 100), Vec::<i64>::new());
    assert_eq!(q.expire(1000, 100), vec![2, 3]);
    assert_eq!(q.len(), 0);
}

#[test]
fn timeout_queue_stops_at_first_fresh_entry() {
    let mut q = TimeoutQueue::new();
    q.push(1, 500);
    q.push(2, 100);
    assert_eq!(q.expire(550, 100), Vec::<i64>::new());
    assert_eq!(q.len(), 2);
}

#[test]
fn timeout_queue_clock_behind_counts_zero() {
    let mut q = TimeoutQueue::new();
    q.push(1, 500);
    assert_eq!(q.expire(100, 0), vec![1]);
}

#[test]
fn pending_calls_register_and_take() {
    let mut p: PendingCalls<u8> = PendingCalls::new();
    assert!(p.register(4, 1).is_ok());
    assert_eq!(p.register(4, 2), Err(2));
    assert!(p.contains(4));
    assert_eq!(p.take(4), Some(1));
    assert_eq!(p.take(4), None);
    assert_eq!(p.len(), 0);
}

#[test]
fn serial_counter_wraps() {
    let mut c = SerialCounter::new();
    assert_eq!(c.new_serial(), 1);
    assert_eq!(c.new_serial(), 2);
}

#[test]
fn request_manager_retires_overdue_requests() {
    let mut m = RequestManager::new(100, "client");
    assert_eq!(*m.netx_client(), "client");
    assert_eq!(m.request_out_time(), 100);
    m.set(1);
    m.set(2);
    assert_eq!(m.check_at(u64::MAX / 2), vec![1, 2]);
    assert_eq!(m.check(), Vec::<i64>::new());
}

#[test]
fn token_calls_and_timeouts() {
    let mut t: AsyncToken<(), u8> = AsyncToken::new(11);
    assert_eq!(t.get_session_id(), 11);
    assert_eq!(t.new_serial(), 1);
    let (tx, _rx) = oneshot::channel();
    assert!(t.begin_call(1, tx).is_err());
    t.set_peer(Some(3));
    assert_eq!(t.get_peer(), Some(&3));
    let (tx, rx) = oneshot::channel();
    assert!(t.begin_call(1, tx).is_ok());
    let (tx2, _rx2) = oneshot::channel();
    assert!(t.begin_call(1, tx2).is_err());
    t.check_request_timeout_at(u64::MAX / 2, 10);
    let got = rx.try_recv().unwrap();
    assert_eq!(got.err().unwrap().to_string(), "time out");
    assert!(t.take_waiting(1).is_none());
    assert!(t.set_error(1, anyhow::Error::msg("x")).is_ok());
    t.set_controller(());
    assert!(t.controller().is_some());
    t.clear_controller_fun_maps();
    assert!(t.controller().is_none());
}

#[test]
fn token_set_error_reports_closed_receiver() {
    let mut t: AsyncToken<(), u8> = AsyncToken::new(1);
    t.set_peer(Some(1));
    let (tx, rx) = oneshot::channel();
    t.begin_call(5, tx).ok().unwrap();
    drop(rx);
    assert!(t.set_error(5, anyhow::Error::msg("x")).is_err());
}

#[test]
fn token_manager_keeps_and_recovers_sessions() {
    let mut m: AsyncTokenManager<(), &'static str> = AsyncTokenManager::new((), 5000, 100);
    assert_eq!((m.request_out_time(), m.session_save_time()), (5000, 100));
    m.insert_token(42, "session");
    assert_eq!(m.get_token(42), Some(&"session"));
    assert_eq!(m.resolve_session(42), Some(&"session"));
    assert_eq!(m.resolve_session(0), None);
    assert_eq!(m.resolve_session(43), None);
    assert_eq!(m.tokens().len(), 1);
    m.peer_disconnect(42);
    assert_eq!(m.disconnect_due_at(0), Vec::<i64>::new());
    assert_eq!(m.disconnect_due_at(u64::MAX / 2), vec![42]);
    assert_eq!(m.remove_token(42), Some("session"));
    assert_eq!(m.remove_token(42), None);
    m.insert_token(7, "back");
    m.insert_token(8, "gone");
    assert_eq!(m.drop_departed(7, false), None);
    assert_eq!(m.get_token(7), Some(&"back"));
    assert_eq!(m.drop_departed(8, true), Some("gone"));
    assert_eq!(m.get_token(8), None);
    assert_eq!(m.drop_departed(9, true), None);
}

#[test]
fn handshake_checks() {
    let o = ServerOption::new("a", "svc", "key");
    assert!(check_command(1000).is_ok());
    assert!(check_command(2000) == Err(Refusal::NotVerifyCommand));
    assert!(check_service_name(&o, &"svc".to_string()).is_ok());
    assert!(check_service_name(&o, &"other".to_string()) == Err(Refusal::ServiceName));
    assert!(check_verify_key(&o, &"key".to_string()).is_ok());
    assert!(check_verify_key(&o, &"bad".to_string()) == Err(Refusal::VerifyKey));
    let open = ServerOption::new("a", "", "");
    assert!(check_service_name(&open, &"anything".to_string()).is_ok());
    assert!(check_verify_key(&open, &"anything".to_string()).is_ok());
    assert_eq!(refusal_message(&Refusal::NotVerifyCommand), "not verify key");
    assert_eq!(refusal_message(&Refusal::ServiceName), "service name error");
    assert_eq!(refusal_message(&Refusal::VerifyKey), "service verify key error");
    assert_eq!(accept_message(), "verify success");
}

#[test]
fn connect_outcome_carries_the_refusal() {
    assert!(connect_outcome(true, "ok".to_string()).is_ok());
    match connect_outcome(false, "service name error".to_string()) {
        Err(ClientError::ConnectError(m)) => assert_eq!(m, "service name error"),
        _ => panic!("a refused connect is a connect error"),
    }
}

#[test]
fn timeout_queue_retires_entries_older_than_u32_millis() {
    let mut q = TimeoutQueue::new();
    q.push(1, 0);
    assert_eq!(q.expire(1u64 << 32, 100), vec![1]);
}

#[test]
fn sweep_keeps_sessions_whose_client_came_back() {
    let mut m: AsyncTokenManager<(), &'static str> = AsyncTokenManager::new((), 5000, 100);
    m.insert_token(1, "away");
    m.insert_token(2, "back");
    m.insert_token(3, "other");
    let gone = m.sweep_departed(&vec![1, 2, 4], &vec![true, false, true]);
    assert_eq!(gone, vec!["away"]);
    assert_eq!(m.get_token(1), None);
    assert_eq!(m.get_token(2), Some(&"back"));
    assert_eq!(m.get_token(3), Some(&"other"));
}
