use chain_gateway::blockchain::GatewayError;
use chain_gateway::health::{ConnectionHealth, ProbeStep};

fn run(mut health: ConnectionHealth, outcomes: &[bool]) -> (u32, Option<Result<(), GatewayError>>) {
    let mut probes = 0u32;
    for &healthy in outcomes {
        if !health.wants_probe() {
            break;
        }
        probes += 1;
        health.record_probe(healthy);
    }
    (probes, health.outcome())
}

#[test]
fn always_failing_probe_makes_exactly_max_attempts() {
    let (probes, outcome) = run(ConnectionHealth::new(10, 3), &[false; 25]);
    assert_eq!(probes, 10);
    assert_eq!(outcome, Some(Err(GatewayError::Unreachable)));
}

#[test]
fn success_on_attempt_k_stops_after_k_probes() {
    let mut outcomes = [false; 10];
    outcomes[3] = true;
    let (probes, outcome) = run(ConnectionHealth::new(10, 3), &outcomes);
    assert_eq!(probes, 4);
    assert_eq!(outcome, Some(Ok(())));
}

#[test]
fn success_on_last_attempt() {
    let mut outcomes = [false; 5];
    outcomes[4] = true;
    let (probes, outcome) = run(ConnectionHealth::new(5, 1), &outcomes);
    assert_eq!(probes, 5);
    assert_eq!(outcome, Some(Ok(())));
}

#[test]
fn zero_attempts_is_unreachable_without_probing() {
    let health = ConnectionHealth::new(0, 3);
    assert!(!health.wants_probe());
    assert_eq!(health.outcome(), Some(Err(GatewayError::Unreachable)));
}

#[test]
fn failed_probe_asks_to_wait_the_interval() {
    let mut health = ConnectionHealth::with_defaults();
    assert_eq!(health.record_probe(false), ProbeStep::RetryAfter(3));
    assert_eq!(health.attempts(), 1);
    assert_eq!(health.outcome(), None);
    assert_eq!(health.record_probe(true), ProbeStep::Ready);
}

#[test]
fn last_failure_reports_unreachable_without_waiting() {
    let mut health = ConnectionHealth::new(2, 7);
    assert_eq!(health.record_probe(false), ProbeStep::RetryAfter(7));
    assert_eq!(health.record_probe(false), ProbeStep::Unreachable);
    assert!(!health.wants_probe());
}
