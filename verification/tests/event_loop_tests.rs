use tango::error::{IOError, PeerError, TangoError};
use tango::error::process_exit_code;
use tango::event_loop::{Listener, LoopEvent, LoopStep, ServerLoop};

fn started() -> ServerLoop {
    ServerLoop::start(true, true, true).unwrap()
}

#[test]
fn a_socket_that_is_not_bound_keeps_the_server_from_starting() {
    assert_eq!(ServerLoop::start(false, true, true).unwrap_err(), TangoError::Bind);
    assert_eq!(ServerLoop::start(true, false, true).unwrap_err(), TangoError::Bind);
    assert_eq!(ServerLoop::start(true, true, false).unwrap_err(), TangoError::Bind);
    assert!(ServerLoop::start(true, true, true).is_ok());
}

#[test]
fn an_accepted_connection_is_served_with_nodelay_and_three_seconds() {
    let mut l = started();
    assert_eq!(
        l.on_event(LoopEvent::Accepted(Listener::TcpMain)),
        LoopStep::Serve { nodelay: true, read_timeout_millis: 3000 }
    );
    assert_eq!(
        l.on_event(LoopEvent::Accepted(Listener::TcpRelay)),
        LoopStep::Serve { nodelay: true, read_timeout_millis: 3000 }
    );
}

#[test]
fn errors_of_one_message_or_connection_do_not_end_the_loop() {
    let mut l = started();
    assert_eq!(l.on_event(LoopEvent::AcceptFailed(Listener::TcpMain)), LoopStep::Continue);
    assert_eq!(l.on_event(LoopEvent::AcceptFailed(Listener::TcpRelay)), LoopStep::Continue);
    assert_eq!(l.on_event(LoopEvent::HandlerFailed(TangoError::Db)), LoopStep::Continue);
    assert_eq!(l.on_event(LoopEvent::HandlerFailed(TangoError::Relay)), LoopStep::Continue);
    assert_eq!(
        l.on_event(LoopEvent::HandlerFailed(TangoError::PeerError(PeerError::InvalidId))),
        LoopStep::Continue
    );
    assert_eq!(l.on_event(LoopEvent::DecodeFailed), LoopStep::Continue);
    assert_eq!(l.on_event(LoopEvent::TimedOut(Listener::TcpMain)), LoopStep::Continue);
    assert_eq!(l.on_event(LoopEvent::TimedOut(Listener::TcpRelay)), LoopStep::Continue);
    assert_eq!(l.on_event(LoopEvent::HandlerFailed(TangoError::Timeout)), LoopStep::Continue);
}

#[test]
fn datagrams_that_cannot_be_decoded_are_counted() {
    let mut l = started();
    assert_eq!(l.dropped_datagrams(), 0);
    l.on_event(LoopEvent::DecodeFailed);
    l.on_event(LoopEvent::DecodeFailed);
    l.on_event(LoopEvent::AcceptFailed(Listener::Udp));
    assert_eq!(l.dropped_datagrams(), 2);
}

#[test]
fn a_shutdown_ends_the_loop_cleanly() {
    let mut l = started();
    assert_eq!(l.on_event(LoopEvent::Shutdown), LoopStep::Finished);
}

#[test]
fn the_loop_ends_when_its_last_source_has_closed() {
    let mut l = started();
    assert_eq!(l.on_event(LoopEvent::ListenerClosed(Listener::Udp)), LoopStep::Continue);
    assert_eq!(l.on_event(LoopEvent::ListenerClosed(Listener::Udp)), LoopStep::Continue);
    assert_eq!(l.on_event(LoopEvent::ListenerClosed(Listener::TcpRelay)), LoopStep::Continue);
    assert_eq!(
        l.on_event(LoopEvent::ListenerClosed(Listener::TcpMain)),
        LoopStep::Failed(TangoError::IOError(IOError::MainListener))
    );
    let mut l = started();
    l.on_event(LoopEvent::ListenerClosed(Listener::TcpMain));
    l.on_event(LoopEvent::ListenerClosed(Listener::Udp));
    assert_eq!(
        l.on_event(LoopEvent::ListenerClosed(Listener::TcpRelay)),
        LoopStep::Failed(TangoError::IOError(IOError::RelayListener))
    );
    let mut l = started();
    l.on_event(LoopEvent::ListenerClosed(Listener::TcpMain));
    l.on_event(LoopEvent::ListenerClosed(Listener::TcpRelay));
    assert_eq!(
        l.on_event(LoopEvent::ListenerClosed(Listener::Udp)),
        LoopStep::Failed(TangoError::IOError(IOError::UdpSocket))
    );
}

#[test]
fn exit_codes() {
    assert_eq!(process_exit_code(Ok(())), 0);
    assert_eq!(process_exit_code(Err(TangoError::Config)), 1);
    assert_eq!(process_exit_code(Err(TangoError::Bind)), 2);
    assert_eq!(process_exit_code(Err(TangoError::Migration)), 3);
    assert_eq!(process_exit_code(Err(TangoError::Db)), 0);
    assert_eq!(TangoError::Config.exit_code(), Some(1));
    assert_eq!(TangoError::Bind.exit_code(), Some(2));
    assert_eq!(TangoError::Migration.exit_code(), Some(3));
    assert_eq!(TangoError::Timeout.exit_code(), None);
    assert!(TangoError::Bind.is_fatal());
    assert!(!TangoError::Relay.is_fatal());
    assert!(!TangoError::ProtocolDecode.is_fatal());
    assert!(!TangoError::PeerError(PeerError::DoesntExist).is_fatal());
}
