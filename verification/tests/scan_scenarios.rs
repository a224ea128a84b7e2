//! Scan scenarios driven through the same async loop the binary uses.
//!
//! The test environment offers no network, not even loopback connects,
//! so a probe here consults a fixed set of listening ports after a
//! short delay instead of opening a socket; everything else — the
//! scheduler, the concurrency bound, the timeout handling, the result
//! ordering — is exercised as in a real scan.

use std::time::Duration;

use fizz::scheduler::Scheduler;
use fizz::scheduler::probe_outcome;

use futures::StreamExt;
use futures::stream::FuturesUnordered;

/// Probes one port the way the scan does: an attempt bounded by a
/// timeout, folded to the port on success and 0 otherwise. The
/// "handshake" completes quickly when the port is in the listening
/// set and hangs past any timeout when it is not.
async fn probe_simulated(port: u16, listening: &[u16], timeout: Duration) -> u16 {
    let attempt = async {
        if listening.contains(&port) {
            tokio::time::sleep(Duration::from_millis(1)).await;
        } else {
            tokio::time::sleep(Duration::from_secs(3600)).await;
        }
    };
    let open = tokio::time::timeout(timeout, attempt).await.is_ok();
    probe_outcome(port, open)
}

/// Drives a scheduler over simulated probes with the scheduler's own
/// concurrency bound, and returns the open ports in resolved order.
fn drive_scan(
    rt: &tokio::runtime::Runtime,
    mut scheduler: Scheduler,
    listening: Vec<u16>,
    timeout: Duration,
) -> Vec<u16> {
    rt.block_on(async {
        let mut in_flight = FuturesUnordered::new();
        loop {
            while let Some(port) = scheduler.next_dispatch() {
                let listening = listening.clone();
                in_flight.push(async move {
                    let outcome = probe_simulated(port, &listening, timeout).await;
                    (port, outcome != 0)
                });
            }
            if scheduler.is_done() {
                break;
            }
            if let Some((port, open)) = in_flight.next().await {
                scheduler.on_settled(port, open);
            }
        }
        scheduler.results_in_order()
    })
}

#[test]
fn probe_idempotent_with_same_timeout() {
    let rt = tokio::runtime::Runtime::new().unwrap();
    let listening: Vec<u16> = vec![5000];
    let timeout = Duration::from_millis(100);
    rt.block_on(async {
        // An open port probed twice with the same timeout yields the
        // port both times.
        assert_eq!(probe_simulated(5000, &listening, timeout).await, 5000);
        assert_eq!(probe_simulated(5000, &listening, timeout).await, 5000);
        // A closed port probed twice with the same timeout yields 0
        // both times.
        assert_eq!(probe_simulated(4999, &listening, timeout).await, 0);
        assert_eq!(probe_simulated(4999, &listening, timeout).await, 0);
    });
}

#[test]
fn scan_range_finds_exactly_the_listener() {
    // One listener on port 5000, a scan of [4990, 5010]: the result
    // set is exactly {5000}.
    let rt = tokio::runtime::Runtime::new().unwrap();
    let resolved = fizz::resolve::resolve(4990, 5010, fizz::catalog::TransportProtocol::Tcp);
    assert_eq!(resolved.count, 20);
    assert_eq!(resolved.ports.len(), 21);
    let scheduler = Scheduler::new(resolved.ports, 10);
    let open_ports = drive_scan(&rt, scheduler, vec![5000], Duration::from_millis(100));
    assert_eq!(open_ports, vec![5000]);
}
