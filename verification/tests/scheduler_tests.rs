use fizz::catalog::TransportProtocol;
use fizz::resolve::PortRange;
use fizz::resolve::resolve;
use fizz::scheduler::ProbeMethod;
use fizz::scheduler::ScanConfig;
use fizz::scheduler::Scheduler;
use fizz::scheduler::probe_method;
use fizz::scheduler::probe_outcome;
use fizz::scheduler::start_scan;

#[test]
fn probe_outcome_folds_to_port_or_zero() {
    assert_eq!(probe_outcome(5000, true), 5000);
    assert_eq!(probe_outcome(5000, false), 0);
    assert_eq!(probe_outcome(0, true), 0);
}

#[test]
fn probe_method_per_protocol() {
    assert_eq!(probe_method(TransportProtocol::Udp), ProbeMethod::Associate);
    assert_eq!(probe_method(TransportProtocol::Tcp), ProbeMethod::Connect);
    assert_eq!(probe_method(TransportProtocol::Sctp), ProbeMethod::Connect);
    assert_eq!(probe_method(TransportProtocol::Unspecified), ProbeMethod::Connect);
}

#[test]
fn scheduler_dispatches_in_resolved_order() {
    let mut s = Scheduler::new(vec![30, 10, 20], 2);
    assert_eq!(s.next_dispatch(), Some(30));
    assert_eq!(s.next_dispatch(), Some(10));
    // Both slots taken: nothing more until a probe settles.
    assert_eq!(s.next_dispatch(), None);
    s.on_settled(30, false);
    assert_eq!(s.next_dispatch(), Some(20));
    assert_eq!(s.next_dispatch(), None);
    assert!(!s.is_done());
    s.on_settled(10, true);
    s.on_settled(20, true);
    assert!(s.is_done());
    assert_eq!(s.results_in_order(), vec![10, 20]);
}

#[test]
fn scheduler_progress_counts_dispatches_not_completions() {
    let mut s = Scheduler::new(vec![1, 2, 3], 3);
    assert_eq!(s.progress_position(), 0);
    s.next_dispatch();
    s.next_dispatch();
    assert_eq!(s.progress_position(), 2);
    // Nothing has settled, yet the progress position already moved.
    assert_eq!(s.in_flight(), 2);
}

#[test]
fn scheduler_results_keep_resolved_order_not_completion_order() {
    let mut s = Scheduler::new(vec![5, 3, 9], 3);
    while let Some(_) = s.next_dispatch() {}
    // Settle out of order: 9 responds first, then 3; 5 stays closed.
    s.on_settled(9, true);
    s.on_settled(3, true);
    s.on_settled(5, false);
    assert!(s.is_done());
    assert_eq!(s.results_in_order(), vec![3, 9]);
}

#[test]
fn scan_thousand_ports_never_exceeds_concurrency_ten() {
    // A scan of 1,000 ports with concurrency 10: the in-flight count,
    // observed after every transition, never exceeds 10.
    let resolved = resolve(1000, 1999, TransportProtocol::Unspecified);
    assert_eq!(resolved.ports.len(), 1000);
    let mut s = Scheduler::new(resolved.ports, 10);
    let mut in_flight_high_water: usize = 0;
    let mut pending: Vec<u16> = Vec::new();
    let mut settled_total = 0usize;
    loop {
        while let Some(port) = s.next_dispatch() {
            pending.push(port);
            assert!(s.in_flight() <= 10);
            in_flight_high_water = in_flight_high_water.max(s.in_flight());
        }
        if s.is_done() {
            break;
        }
        let port = pending.remove(0);
        // Simulate the probe outcome: every 97th port responds.
        let open = port % 97 == 0;
        s.on_settled(port, open);
        settled_total += 1;
        assert!(s.in_flight() <= 10);
    }
    assert_eq!(settled_total, 1000);
    assert_eq!(in_flight_high_water, 10);
    let open_ports = s.results_in_order();
    assert_eq!(open_ports, vec![1067, 1164, 1261, 1358, 1455, 1552, 1649, 1746, 1843, 1940]);
}

#[test]
fn start_scan_resolves_config() {
    let config = ScanConfig {
        target: String::from("127.0.0.1"),
        concurrency: 4,
        timeout_secs: 1,
        range: PortRange { min: 80, max: 90 },
        protocol: TransportProtocol::Tcp,
    };
    let (s, count) = start_scan(&config);
    assert_eq!(count, 10);
    assert_eq!(s.progress_position(), 0);
    assert_eq!(s.in_flight(), 0);
    let mut s = s;
    assert_eq!(s.next_dispatch(), Some(80));
}
