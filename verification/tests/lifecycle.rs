use bright_agent::registry::Entry;
use bright_agent::session::{
    start, step, Action, Duty, Event, Phase, CONNECT_BACKOFF, IDLE_PAUSE, LOOP_THROTTLE,
};

fn entry(label: &str, address: &str) -> Entry {
    Entry { label: label.as_bytes().to_vec(), address: address.as_bytes().to_vec() }
}

fn active(last_ka: u64, duty: Duty) -> Phase {
    Phase::Active { last_ka, carry: Vec::new(), duty }
}

fn await_registry(label: &str) -> Duty {
    Duty::AwaitRegistry { label: label.as_bytes().to_vec(), rest: Vec::new() }
}

#[test]
fn startup_connects_then_hands_shake() {
    let (ph, act) = start();
    assert_eq!(ph, Phase::Connecting);
    assert_eq!(act, Action::Connect);
    let (ph, act) = step(ph, Event::ConnectOk, 0);
    assert_eq!(ph, Phase::Handshaking);
    assert_eq!(act, Action::SendIdentity);
    let (ph, act) = step(ph, Event::WriteOk, 7);
    assert_eq!(ph, active(7, Duty::AwaitRead));
    assert_eq!(act, Action::Read);
}

#[test]
fn directive_resolves_and_dispatches() {
    let (ph, act) = step(
        active(0, Duty::AwaitRead),
        Event::ReadData { bytes: b"Machine: bench3\n".to_vec() },
        5,
    );
    assert_eq!(ph, active(0, await_registry("bench3")));
    assert_eq!(act, Action::LoadRegistry);
    let reg = vec![entry("bench3", "10.0.0.5")];
    let (ph, act) = step(ph, Event::RegistryOk { entries: reg }, 5);
    assert_eq!(ph, active(0, Duty::AwaitDispatch { rest: Vec::new() }));
    assert_eq!(
        act,
        Action::Dispatch { url: b"http://10.0.0.5:8080/action/putInStartMode".to_vec() }
    );
    let (ph, act) = step(ph, Event::Dispatched, 5);
    assert_eq!(ph, active(0, Duty::Throttling));
    assert_eq!(act, Action::Sleep { units: LOOP_THROTTLE });
}

#[test]
fn two_directives_in_one_read_dispatch_in_order() {
    let reg = vec![entry("bench3", "10.0.0.5"), entry("bench4", "10.0.0.6")];
    let (ph, act) = step(
        active(0, Duty::AwaitRead),
        Event::ReadData { bytes: b"Machine: bench3\nMachine: bench4\n".to_vec() },
        5,
    );
    assert_eq!(
        ph,
        active(
            0,
            Duty::AwaitRegistry {
                label: b"bench3".to_vec(),
                rest: vec![b"bench4".to_vec()],
            }
        )
    );
    assert_eq!(act, Action::LoadRegistry);
    let (ph, act) = step(ph, Event::RegistryOk { entries: reg.clone() }, 5);
    assert_eq!(
        act,
        Action::Dispatch { url: b"http://10.0.0.5:8080/action/putInStartMode".to_vec() }
    );
    let (ph, act) = step(ph, Event::Dispatched, 5);
    assert_eq!(ph, active(0, await_registry("bench4")));
    assert_eq!(act, Action::LoadRegistry);
    let (ph, act) = step(ph, Event::RegistryOk { entries: reg }, 5);
    assert_eq!(
        act,
        Action::Dispatch { url: b"http://10.0.0.6:8080/action/putInStartMode".to_vec() }
    );
    let (ph, act) = step(ph, Event::Dispatched, 5);
    assert_eq!(ph, active(0, Duty::Throttling));
    assert_eq!(act, Action::Sleep { units: LOOP_THROTTLE });
}

#[test]
fn directive_split_across_reads_is_reassembled() {
    let (ph, act) = step(
        active(0, Duty::AwaitRead),
        Event::ReadData { bytes: b"Machine: ben".to_vec() },
        5,
    );
    assert_eq!(
        ph,
        Phase::Active {
            last_ka: 0,
            carry: b"Machine: ben".to_vec(),
            duty: Duty::Throttling,
        }
    );
    assert_eq!(act, Action::Sleep { units: LOOP_THROTTLE });
    let (ph, act) = step(ph, Event::Slept, 6);
    assert_eq!(act, Action::Read);
    let (ph, act) = step(ph, Event::ReadData { bytes: b"ch3\n".to_vec() }, 6);
    assert_eq!(ph, active(0, await_registry("bench3")));
    assert_eq!(act, Action::LoadRegistry);
}

#[test]
fn unresolved_directive_is_dropped_and_session_stays_active() {
    let (ph, act) = step(
        active(0, Duty::AwaitRead),
        Event::ReadData { bytes: b"Machine: ghost\n".to_vec() },
        5,
    );
    assert_eq!(act, Action::LoadRegistry);
    let reg = vec![entry("bench3", "10.0.0.5")];
    let (ph, act) = step(ph, Event::RegistryOk { entries: reg }, 5);
    assert_eq!(ph, active(0, Duty::Throttling));
    assert_eq!(act, Action::Sleep { units: LOOP_THROTTLE });
}

#[test]
fn registry_failure_is_recoverable() {
    let (ph, act) = step(
        active(0, Duty::AwaitRead),
        Event::ReadData { bytes: b"Machine: bench3\n".to_vec() },
        5,
    );
    assert_eq!(act, Action::LoadRegistry);
    let (ph, act) = step(ph, Event::RegistryErr, 5);
    assert_eq!(ph, active(0, Duty::Throttling));
    assert_eq!(act, Action::Sleep { units: LOOP_THROTTLE });
}

#[test]
fn non_directive_text_is_ignored() {
    let (ph, act) = step(
        active(3, Duty::AwaitRead),
        Event::ReadData { bytes: b"weather is fine\n".to_vec() },
        5,
    );
    assert_eq!(ph, active(3, Duty::Throttling));
    assert_eq!(act, Action::Sleep { units: LOOP_THROTTLE });
}

#[test]
fn same_directive_twice_dispatches_twice() {
    let reg = vec![entry("bench3", "10.0.0.5")];
    let url = b"http://10.0.0.5:8080/action/putInStartMode".to_vec();
    let mut ph = active(0, Duty::AwaitRead);
    let mut dispatched = 0;
    for _round in 0..2 {
        let (p, act) = step(ph, Event::ReadData { bytes: b"Machine: bench3\n".to_vec() }, 5);
        assert_eq!(act, Action::LoadRegistry);
        let (p, act) = step(p, Event::RegistryOk { entries: reg.clone() }, 5);
        assert_eq!(act, Action::Dispatch { url: url.clone() });
        dispatched += 1;
        let (p, act) = step(p, Event::Dispatched, 5);
        assert_eq!(act, Action::Sleep { units: LOOP_THROTTLE });
        let (p, act) = step(p, Event::Slept, 6);
        assert_eq!(act, Action::Read);
        ph = p;
    }
    assert_eq!(dispatched, 2);
    assert_eq!(ph, active(0, Duty::AwaitRead));
}

#[test]
fn keep_alive_emitted_when_due_before_any_read() {
    let (ph, act) = step(active(100, Duty::Throttling), Event::Slept, 130);
    assert_eq!(ph, active(100, Duty::AwaitKaWrite));
    assert_eq!(act, Action::SendKeepAlive);
    let (ph, act) = step(ph, Event::WriteOk, 131);
    assert_eq!(ph, active(131, Duty::AwaitRead));
    assert_eq!(act, Action::Read);
}

#[test]
fn keep_alive_not_emitted_before_interval() {
    let (ph, act) = step(active(100, Duty::Throttling), Event::Slept, 129);
    assert_eq!(ph, active(100, Duty::AwaitRead));
    assert_eq!(act, Action::Read);
}

#[test]
fn read_timeout_pauses_then_resumes() {
    let (ph, act) = step(active(0, Duty::AwaitRead), Event::ReadTimeout, 5);
    assert_eq!(ph, active(0, Duty::Pausing));
    assert_eq!(act, Action::Sleep { units: IDLE_PAUSE });
    let (ph, act) = step(ph, Event::Slept, 6);
    assert_eq!(ph, active(0, Duty::AwaitRead));
    assert_eq!(act, Action::Read);
}

#[test]
fn keep_alive_write_failure_closes_session() {
    let (ph, act) = step(active(0, Duty::AwaitKaWrite), Event::WriteErr, 40);
    assert_eq!(ph, Phase::Closed);
    assert_eq!(act, Action::CloseSocket);
}

#[test]
fn handshake_write_failure_closes_session() {
    let (ph, act) = step(Phase::Handshaking, Event::WriteErr, 1);
    assert_eq!(ph, Phase::Closed);
    assert_eq!(act, Action::CloseSocket);
}

#[test]
fn read_error_closes_session() {
    let (ph, act) = step(active(0, Duty::AwaitRead), Event::ReadErr, 5);
    assert_eq!(ph, Phase::Closed);
    assert_eq!(act, Action::CloseSocket);
}

#[test]
fn zero_byte_read_closes_then_reconnects_without_backoff() {
    let (ph, act) = step(active(0, Duty::AwaitRead), Event::ReadClosed, 5);
    assert_eq!(ph, Phase::Closed);
    assert_eq!(act, Action::CloseSocket);
    let (ph, act) = step(ph, Event::SocketClosed, 5);
    assert_eq!(ph, Phase::Connecting);
    assert_eq!(act, Action::Connect);
}

#[test]
fn connect_failure_backs_off_then_retries() {
    let mut ph = Phase::Connecting;
    for round in 0..5u64 {
        let (p, act) = step(ph, Event::ConnectErr, round);
        assert_eq!(p, Phase::BackingOff);
        assert_eq!(act, Action::Sleep { units: CONNECT_BACKOFF });
        let (p, act) = step(p, Event::Slept, round + CONNECT_BACKOFF);
        assert_eq!(p, Phase::Connecting);
        assert_eq!(act, Action::Connect);
        ph = p;
    }
}
