use std::sync::mpsc::{channel, Receiver, Sender};

use authority_permission::bridge::Bridge;
use authority_permission::request::{resolve, ClaimDimension, PermissionRequest, PermissionVerdict};
use authority_permission::resolver::ParityPermissionGranted;

fn slot(value: u64) -> PermissionRequest {
    PermissionRequest { dimension: ClaimDimension::Slot, proposed_value: value }
}

fn round(value: u64) -> PermissionRequest {
    PermissionRequest { dimension: ClaimDimension::Round, proposed_value: value }
}

const GRANTED: PermissionVerdict = PermissionVerdict { granted: true };
const DENIED: PermissionVerdict = PermissionVerdict { granted: false };

#[test]
fn new_bridge_holds_nothing() {
    let mut bridge: Bridge<u32> = Bridge::new();
    assert_eq!(bridge.waiting(), 0);
    assert!(!bridge.is_resolving());
    assert_eq!(bridge.next(), None);
    assert_eq!(bridge.complete(GRANTED), None);
    assert_eq!(bridge.waiting(), 0);
    assert!(!bridge.is_resolving());
}

#[test]
fn requests_are_handed_out_in_the_order_of_arrival() {
    let mut bridge: Bridge<&str> = Bridge::new();
    bridge.submit(slot(3), "first");
    bridge.submit(round(1), "second");
    bridge.submit(slot(2), "third");
    assert_eq!(bridge.waiting(), 3);

    assert_eq!(bridge.next(), Some(slot(3)));
    assert_eq!(bridge.complete(GRANTED), Some(("first", GRANTED)));
    assert_eq!(bridge.next(), Some(round(1)));
    assert_eq!(bridge.complete(DENIED), Some(("second", DENIED)));
    assert_eq!(bridge.next(), Some(slot(2)));
    assert_eq!(bridge.complete(GRANTED), Some(("third", GRANTED)));
    assert_eq!(bridge.next(), None);
    assert_eq!(bridge.waiting(), 0);
}

#[test]
fn one_request_is_resolved_at_a_time() {
    let mut bridge: Bridge<u32> = Bridge::new();
    bridge.submit(slot(1), 10);
    bridge.submit(slot(2), 20);
    assert_eq!(bridge.next(), Some(slot(1)));
    assert!(bridge.is_resolving());
    // nothing more is handed out while the first is being resolved
    assert_eq!(bridge.next(), None);
    assert_eq!(bridge.next(), None);
    assert_eq!(bridge.waiting(), 1);
    // a request that arrives meanwhile waits behind the others
    bridge.submit(slot(3), 30);
    assert_eq!(bridge.next(), None);
    assert_eq!(bridge.complete(DENIED), Some((10, DENIED)));
    assert!(!bridge.is_resolving());
    assert_eq!(bridge.next(), Some(slot(2)));
    assert_eq!(bridge.complete(GRANTED), Some((20, GRANTED)));
    assert_eq!(bridge.next(), Some(slot(3)));
    assert_eq!(bridge.complete(GRANTED), Some((30, GRANTED)));
}

#[test]
fn each_verdict_is_given_back_once() {
    let mut bridge: Bridge<u32> = Bridge::new();
    bridge.submit(slot(1), 10);
    assert_eq!(bridge.next(), Some(slot(1)));
    assert_eq!(bridge.complete(GRANTED), Some((10, GRANTED)));
    // a verdict without a request in flight goes nowhere
    assert_eq!(bridge.complete(GRANTED), None);
    assert_eq!(bridge.complete(DENIED), None);
    bridge.submit(slot(2), 20);
    assert_eq!(bridge.complete(GRANTED), None);
    assert_eq!(bridge.waiting(), 1);
    assert_eq!(bridge.next(), Some(slot(2)));
    assert_eq!(bridge.complete(DENIED), Some((20, DENIED)));
}

#[test]
fn every_caller_receives_the_verdict_of_its_own_request() {
    let mut bridge: Bridge<Sender<PermissionVerdict>> = Bridge::new();
    let mut waiting: Vec<(u64, Receiver<PermissionVerdict>)> = Vec::new();
    for value in [4u64, 7, 10, 1, 2] {
        let (reply, verdict) = channel();
        bridge.submit(slot(value), reply);
        waiting.push((value, verdict));
    }
    let resolver = ParityPermissionGranted {};
    let mut seen = Vec::new();
    while let Some(request) = bridge.next() {
        seen.push(request.proposed_value);
        let verdict = resolve(&resolver, &request);
        let (reply, verdict) = bridge.complete(verdict).unwrap();
        reply.send(verdict).unwrap();
    }
    assert_eq!(seen, vec![4, 7, 10, 1, 2]);
    for (value, verdict) in waiting {
        assert_eq!(verdict.recv().unwrap().granted, value % 2 == 0);
        // its single response: the handle is gone
        assert!(verdict.recv().is_err());
    }
}
