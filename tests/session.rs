use rustrc::channel::{ChannelEvent, ExecState};
use rustrc::client::ConnectionState;
use rustrc::Error;

#[test]
fn connected_session_accepts_exec() {
    let s = ConnectionState::Connected;
    assert!(s.begin_exec().is_ok());
    assert!(s.begin_disconnect().is_ok());
}

#[test]
fn exec_after_disconnect_fails_fast() {
    let mut s = ConnectionState::Connected;
    assert!(s.begin_disconnect().is_ok());
    assert!(s.end_disconnect(Ok(())).is_ok());
    match s.begin_exec() {
        Err(Error::ConnectionError(m)) => assert_eq!(m, "session closed"),
        _ => panic!("exec after disconnect must fail"),
    }
}

#[test]
fn second_disconnect_fails_fast() {
    let mut s = ConnectionState::Connected;
    assert!(s.end_disconnect(Ok(())).is_ok());
    match s.begin_disconnect() {
        Err(Error::ConnectionError(m)) => assert_eq!(m, "session closed"),
        _ => panic!("second disconnect must fail"),
    }
}

#[test]
fn failed_disconnect_keeps_the_failure() {
    let mut s = ConnectionState::Connected;
    let r = s.end_disconnect(Err(Error::ConnectionError("broken pipe".to_string())));
    match r {
        Err(Error::ConnectionError(m)) => assert_eq!(m, "broken pipe"),
        _ => panic!("the failure is handed back"),
    }
    match s.begin_exec() {
        Err(Error::ConnectionError(m)) => assert_eq!(m, "broken pipe"),
        _ => panic!("exec on a failed session must fail"),
    }
}

#[test]
fn hello_is_echoed_once_with_status_zero() {
    let mut st = ExecState::new();
    let echoed = st.step(ChannelEvent::Data(b"hello\n".to_vec()));
    assert_eq!(echoed, Some(b"hello\n".to_vec()));
    assert_eq!(st.step(ChannelEvent::ExitStatus(0)), None);
    assert_eq!(st.step(ChannelEvent::Other), None);
    let out = st.finish();
    assert_eq!(out.status_code, Some(0));
    assert_eq!(out.stdout, b"hello\n".to_vec());
}

#[test]
fn no_exit_status_gives_none() {
    let mut st = ExecState::new();
    assert_eq!(st.step(ChannelEvent::Data(b"partial".to_vec())), Some(b"partial".to_vec()));
    let out = st.finish();
    assert_eq!(out.status_code, None);
    assert_eq!(out.stdout, b"partial".to_vec());
}

#[test]
fn last_exit_status_wins_and_data_concatenates() {
    let mut st = ExecState::new();
    st.step(ChannelEvent::Data(b"ab".to_vec()));
    st.step(ChannelEvent::ExitStatus(3));
    st.step(ChannelEvent::Data(b"cd".to_vec()));
    st.step(ChannelEvent::ExitStatus(7));
    let out = st.finish();
    assert_eq!(out.stdout, b"abcd".to_vec());
    assert_eq!(out.status_code, Some(7));
}

#[test]
fn sequential_channels_do_not_share_state() {
    let mut first = ExecState::new();
    first.step(ChannelEvent::Data(b"one\n".to_vec()));
    first.step(ChannelEvent::ExitStatus(1));
    let a = first.finish();
    let mut second = ExecState::new();
    second.step(ChannelEvent::Data(b"two\n".to_vec()));
    let b = second.finish();
    assert_eq!(a.stdout, b"one\n".to_vec());
    assert_eq!(a.status_code, Some(1));
    assert_eq!(b.stdout, b"two\n".to_vec());
    assert_eq!(b.status_code, None);
}

#[test]
fn error_reports_kind_and_message() {
    assert_eq!(Error::ConfigError("x".to_string()).to_string(), "Config error: x");
    assert_eq!(Error::ConnectionError("y".to_string()).to_string(), "Connection error: y");
    assert_eq!(Error::CommandError("z".to_string()).to_string(), "Command error: z");
    assert_eq!(Error::AuthenticationError("w".to_string()).to_string(), "Authentication error: w");
    assert_eq!(Error::SocketError("v".to_string()).to_string(), "Socket Error: v");
    assert_eq!(Error::from_transport("refused".to_string()).message(), "refused");
    assert!(matches!(Error::from_transport("refused".to_string()), Error::ConnectionError(_)));
}
