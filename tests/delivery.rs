use xlauth::delivery::{
    code_request, format_request, Action, Delivery, DeliveryTimeout, Event, Phase, BACKOFF_NS,
};

const SECOND: u64 = 1_000_000_000;

#[test]
fn tick_before_deadline_asks_for_remaining_time() {
    let mut d = Delivery::new(60 * SECOND);
    assert_eq!(d.step(Event::Tick { elapsed_ns: 0 }), Action::Connect { timeout_ns: 60 * SECOND });
    assert_eq!(
        d.step(Event::Tick { elapsed_ns: 15 * SECOND }),
        Action::Connect { timeout_ns: 45 * SECOND }
    );
    assert_eq!(d.phase, Phase::Waiting);
}

#[test]
fn refused_connection_backs_off_one_millisecond() {
    let mut d = Delivery::new(SECOND);
    assert_eq!(d.step(Event::ConnectFailed), Action::Backoff { pause_ns: BACKOFF_NS });
    assert_eq!(BACKOFF_NS, 1_000_000);
    assert_eq!(d.phase, Phase::Waiting);
}

#[test]
fn timed_out_attempt_gives_up() {
    let mut d = Delivery::new(7 * SECOND);
    assert_eq!(
        d.step(Event::ConnectTimedOut),
        Action::GiveUp { error: DeliveryTimeout { deadline_ns: 7 * SECOND } }
    );
    assert_eq!(d.phase, Phase::Expired);
    assert_eq!(d.step(Event::Connected), Action::Finished);
}

#[test]
fn listener_appearing_late_gets_exactly_one_code() {
    let mut d = Delivery::new(60 * SECOND);
    let mut actions = Vec::new();
    for i in 0..100u64 {
        actions.push(d.step(Event::Tick { elapsed_ns: i * 10_000_000 }));
        actions.push(d.step(Event::ConnectFailed));
    }
    actions.push(d.step(Event::Tick { elapsed_ns: SECOND }));
    actions.push(d.step(Event::Connected));
    actions.push(d.step(Event::Connected));
    actions.push(d.step(Event::Tick { elapsed_ns: 2 * SECOND }));
    let sends = actions.iter().filter(|a| **a == Action::SendCode).count();
    assert_eq!(sends, 1);
    assert_eq!(d.phase, Phase::Delivered);
}

#[test]
fn five_second_deadline_on_unbound_port_times_out() {
    let mut d = Delivery::new(5 * SECOND);
    let mut elapsed = 0u64;
    let result = loop {
        match d.step(Event::Tick { elapsed_ns: elapsed }) {
            Action::Connect { timeout_ns } => {
                assert!(elapsed + timeout_ns == 5 * SECOND);
                assert_eq!(d.step(Event::ConnectFailed), Action::Backoff { pause_ns: BACKOFF_NS });
                elapsed += BACKOFF_NS;
            }
            Action::GiveUp { error } => break error,
            other => panic!("unexpected action {:?}", other),
        }
    };
    assert_eq!(result, DeliveryTimeout { deadline_ns: 5 * SECOND });
    assert_eq!(elapsed, 5 * SECOND);
    assert_eq!(
        format!("{:?}", std::time::Duration::from_nanos(result.deadline_ns)),
        "5s"
    );
}

#[test]
fn request_has_fixed_shape() {
    let r: String = format_request("123456", "xlauth", "0.1.0").into_iter().collect();
    assert_eq!(
        r,
        "GET /ffxivlauncher/123456 HTTP/1.0\r\nHost: localhost\r\nUser-Agent: xlauth/0.1.0\r\nContent-Length: 0\r\n\r\n"
    );
}

#[test]
fn code_request_carries_current_code() {
    let mut s = b"12345678901234567890".to_vec();
    let r: String = code_request(&mut s, 59, "xlauth", "1.2.3").unwrap().into_iter().collect();
    assert_eq!(
        r,
        "GET /ffxivlauncher/287082 HTTP/1.0\r\nHost: localhost\r\nUser-Agent: xlauth/1.2.3\r\nContent-Length: 0\r\n\r\n"
    );
    assert!(s.is_empty());
    let mut short = vec![1u8, 2, 3];
    let r: String = code_request(&mut short, 59, "xlauth", "1.2.3").unwrap().into_iter().collect();
    assert!(r.starts_with("GET /ffxivlauncher/821998 HTTP/1.0\r\n"));
    assert!(short.is_empty());
}
