use std::io::{Error as IoError, ErrorKind};
use tackboardlib::connection_manager::{accept_outcome, ConnectionManager};
use tackboardlib::errors::TackboardError;

type Manager = ConnectionManager<&'static str, Vec<String>, u32>;

#[test]
fn client_manager_sends_on_its_connection() {
    let m: Manager = ConnectionManager::create_client("127.0.0.1:5621".to_string(), Ok(7), vec![]).unwrap();
    assert_eq!(*m.durable_connection().unwrap(), 7);
    assert_eq!(*m.listening_connection(), 7);
}

#[test]
fn client_manager_refuses_to_accept() {
    let m: Manager = ConnectionManager::create_client("127.0.0.1:5621".to_string(), Ok(7), vec![]).unwrap();
    assert!(matches!(m.accept_listener(), Err(TackboardError::InvalidRequest)));
}

#[test]
fn failed_connect_is_a_network_error() {
    let r: Result<Manager, _> = ConnectionManager::create_client(
        "127.0.0.1:1".to_string(),
        Err(IoError::new(ErrorKind::ConnectionRefused, "refused")),
        vec![],
    );
    match r {
        Err(TackboardError::Io(e)) => assert_eq!(e.kind(), ErrorKind::ConnectionRefused),
        _ => panic!("expected a network error"),
    }
}

#[test]
fn server_manager_accepts_on_its_listener() {
    let m: Manager = ConnectionManager::create_listener("127.0.0.1:5621".to_string(), Ok("listener"), vec!["a".to_string()]).unwrap();
    assert_eq!(*m.accept_listener().unwrap(), "listener");
    assert_eq!(m.connected_clients(), &vec!["a".to_string()]);
}

#[test]
fn server_manager_refuses_to_send() {
    let m: Manager = ConnectionManager::create_listener("127.0.0.1:5621".to_string(), Ok("listener"), vec![]).unwrap();
    assert!(matches!(m.durable_connection(), Err(TackboardError::InvalidRequest)));
}

#[test]
fn failed_bind_is_a_network_error() {
    let r: Result<Manager, _> = ConnectionManager::create_listener(
        "127.0.0.1:5621".to_string(),
        Err(IoError::new(ErrorKind::AddrInUse, "in use")),
        vec![],
    );
    match r {
        Err(TackboardError::Io(e)) => assert_eq!(e.kind(), ErrorKind::AddrInUse),
        _ => panic!("expected a network error"),
    }
}

#[test]
fn accept_failure_is_a_network_error() {
    let r = accept_outcome::<u8>(Err(IoError::new(ErrorKind::TimedOut, "slow")));
    match r {
        Err(TackboardError::Io(e)) => assert_eq!(e.kind(), ErrorKind::TimedOut),
        _ => panic!("expected a network error"),
    }
    assert!(matches!(accept_outcome::<u8>(Ok(3)), Ok(3)));
}

#[test]
fn cloned_manager_keeps_its_role() {
    let m: Manager = ConnectionManager::create_client("x".to_string(), Ok(9), vec![]).unwrap();
    let c = m.clone();
    assert_eq!(*c.durable_connection().unwrap(), 9);
    assert!(c.accept_listener().is_err());
}

#[test]
fn default_manager_refuses_to_send_and_to_accept() {
    let m: Manager = ConnectionManager::default();
    assert!(matches!(m.durable_connection(), Err(TackboardError::InvalidRequest)));
    assert!(matches!(m.accept_listener(), Err(TackboardError::InvalidRequest)));
    assert!(m.connected_clients().is_empty());
}

#[test]
fn new_manager_has_no_role() {
    let m: Manager = ConnectionManager::new("127.0.0.1:5621".to_string(), vec!["c".to_string()]);
    assert!(matches!(m.durable_connection(), Err(TackboardError::InvalidRequest)));
    assert!(matches!(m.accept_listener(), Err(TackboardError::InvalidRequest)));
    assert_eq!(m.connected_clients(), &vec!["c".to_string()]);
}

#[test]
fn server_manager_accepts_again_and_again() {
    let m: Manager = ConnectionManager::create_listener("127.0.0.1:5621".to_string(), Ok("listener"), vec![]).unwrap();
    for client in 0u8..3 {
        assert_eq!(*m.accept_listener().unwrap(), "listener");
        assert!(matches!(accept_outcome::<u8>(Ok(client)), Ok(c) if c == client));
    }
    assert!(matches!(accept_outcome::<u8>(Err(IoError::new(ErrorKind::Interrupted, "x"))), Err(TackboardError::Io(_))));
    assert_eq!(*m.accept_listener().unwrap(), "listener");
}

#[test]
fn cloned_server_manager_keeps_its_listener() {
    let m: Manager = ConnectionManager::create_listener("p".to_string(), Ok("l"), vec!["a".to_string()]).unwrap();
    let c = m.clone();
    assert_eq!(*c.accept_listener().unwrap(), "l");
    assert!(c.durable_connection().is_err());
    assert_eq!(c.connected_clients(), &vec!["a".to_string()]);
}
