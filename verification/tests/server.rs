use pingd::connection::{Connection, Event, Phase};
use pingd::error::IoFailure;
use pingd::listener::{Listener, ListenerEvent, LISTEN_HOST, LISTEN_PORT};
use pingd::protocol::Reply;
use pingd::shutdown::{shutdown_channel, SignalOutcome};
use pingd::supervisor::{Finished, Supervisor, EXIT_FAILURE, EXIT_SUCCESS};

const EVENTS: [ListenerEvent; 5] = [
    ListenerEvent::Bound,
    ListenerEvent::BindFailed,
    ListenerEvent::Accepted,
    ListenerEvent::AcceptFailed,
    ListenerEvent::Spawned,
];

#[test]
fn the_server_listens_on_the_loopback_port_8080() {
    assert_eq!(LISTEN_HOST, [127, 0, 0, 1]);
    assert_eq!(LISTEN_PORT, 8080);
}

#[test]
fn the_accept_loop_binds_first() {
    assert_eq!(Listener::new(), Listener::Binding);
    assert_eq!(Listener::new().step(ListenerEvent::Bound), Listener::Accepting);
}

#[test]
fn every_connection_is_handed_to_a_handler() {
    let mut listener = Listener::new().step(ListenerEvent::Bound);
    for _ in 0..3 {
        assert_eq!(listener, Listener::Accepting);
        listener = listener.step(ListenerEvent::Accepted);
        assert_eq!(listener, Listener::Spawning);
        listener = listener.step(ListenerEvent::Spawned);
    }
    assert_eq!(listener, Listener::Accepting);
}

#[test]
fn a_failed_accept_ends_the_loop() {
    let listener = Listener::new().step(ListenerEvent::Bound).step(ListenerEvent::AcceptFailed);
    assert_eq!(listener, Listener::Stopped(IoFailure::Accept));
    for event in EVENTS {
        assert_eq!(listener.step(event), listener);
    }
}

#[test]
fn the_accept_loop_ignores_what_it_does_not_wait_for() {
    for event in [ListenerEvent::Accepted, ListenerEvent::AcceptFailed, ListenerEvent::Spawned] {
        assert_eq!(Listener::Binding.step(event), Listener::Binding);
    }
    for event in [ListenerEvent::Bound, ListenerEvent::BindFailed, ListenerEvent::Spawned] {
        assert_eq!(Listener::Accepting.step(event), Listener::Accepting);
    }
    for event in [
        ListenerEvent::Bound,
        ListenerEvent::BindFailed,
        ListenerEvent::Accepted,
        ListenerEvent::AcceptFailed,
    ] {
        assert_eq!(Listener::Spawning.step(event), Listener::Spawning);
    }
}

#[test]
fn the_supervisor_exits_with_success_on_shutdown() {
    let supervisor = Supervisor::new();
    assert_eq!(supervisor, Supervisor::Running);
    assert_eq!(supervisor.status(), None);
    let supervisor = supervisor.step(Finished::ShutdownWaiter);
    assert_eq!(supervisor, Supervisor::Exiting(0));
    assert_eq!(supervisor.status(), Some(EXIT_SUCCESS));
}

#[test]
fn the_supervisor_exits_with_success_when_the_accept_loop_dies() {
    let died = Finished::AcceptLoop(Err(IoFailure::Accept));
    assert_eq!(Supervisor::new().step(died).status(), Some(0));
}

#[test]
fn the_supervisor_exits_with_failure_when_the_server_cannot_bind() {
    let died = Finished::AcceptLoop(Err(IoFailure::Bind));
    assert_eq!(Supervisor::new().step(died), Supervisor::Exiting(1));
    assert_eq!(Supervisor::new().step(died).status(), Some(EXIT_FAILURE));
    assert_ne!(EXIT_FAILURE, 0);
}

#[test]
fn the_first_task_to_finish_decides() {
    let bind = Finished::AcceptLoop(Err(IoFailure::Bind));
    let accept = Finished::AcceptLoop(Err(IoFailure::Accept));
    let ended = Finished::AcceptLoop(Ok(()));
    assert_eq!(Supervisor::new().step(ended).status(), Some(0));
    for first in [Finished::ShutdownWaiter, bind, accept, ended] {
        let decided = Supervisor::new().step(first);
        for later in [Finished::ShutdownWaiter, bind, accept, ended] {
            assert_eq!(decided.step(later), decided);
        }
    }
}

#[test]
fn two_connections_one_pings_one_stops() {
    let (sender, mut receiver) = shutdown_channel();
    let supervisor = Supervisor::new();
    let mut listener = Listener::new().step(ListenerEvent::Bound);

    listener = listener.step(ListenerEvent::Accepted);
    assert_eq!(listener, Listener::Spawning);
    let a = Connection::new();
    let a_sender = sender.clone();
    listener = listener.step(ListenerEvent::Spawned);

    listener = listener.step(ListenerEvent::Accepted);
    assert_eq!(listener, Listener::Spawning);
    let b = Connection::new();
    let b_sender = sender.clone();
    listener = listener.step(ListenerEvent::Spawned);
    assert_eq!(listener, Listener::Accepting);

    let a = a.step(Event::Received(b"PING\n".to_vec()));
    assert_eq!(a.phase(), Phase::Responding(Reply::Pong));
    assert_eq!(Reply::Pong.bytes(), b"PONG\r\n");
    let a = a.step(Event::Written);
    assert_eq!(a.phase(), Phase::Reading);
    assert!(receiver.try_recv().is_err());

    let b = b.step(Event::Received(b"STOP\n".to_vec()));
    assert_eq!(b.phase(), Phase::Responding(Reply::Sure));
    assert_eq!(Reply::Sure.bytes(), b"SURE\r\n");
    let b = b.step(Event::Written);
    assert_eq!(b.phase(), Phase::Signalling);
    let (b, outcome) = b.signal(&b_sender);
    assert_eq!(outcome, Some(SignalOutcome::Delivered));
    assert_eq!(b.phase(), Phase::Closed(Ok(())));

    assert_eq!(receiver.try_recv(), Ok(()));
    let supervisor = supervisor.step(Finished::ShutdownWaiter);
    assert_eq!(supervisor.status(), Some(0));

    assert_eq!(a.phase(), Phase::Reading);
    assert_eq!(listener, Listener::Accepting);
    let (a, outcome) = a.signal(&a_sender);
    assert_eq!(outcome, None);
    assert_eq!(a.phase(), Phase::Reading);
}

#[test]
fn a_port_that_is_taken_keeps_the_server_from_starting() {
    let listener = Listener::new().step(ListenerEvent::BindFailed);
    assert_eq!(listener, Listener::Stopped(IoFailure::Bind));
    for event in EVENTS {
        assert_eq!(listener.step(event), listener);
    }
    let failure = match listener {
        Listener::Stopped(failure) => failure,
        _ => unreachable!(),
    };
    let supervisor = Supervisor::new().step(Finished::AcceptLoop(Err(failure)));
    assert_eq!(supervisor.status(), Some(1));
}
