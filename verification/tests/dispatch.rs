use leaf::addr::{Endpoint, Ip, SocksAddr};
use leaf::direct::{dial_plan, DialPlan};
use leaf::error::ErrorKind;
use leaf::failover::{
    probe_host, probe_port, probe_request, DialStep, FailoverState, SerialDial, TaskSlot,
};
use leaf::measure::{
    measure_of, Measure, ProbeOutcome, LATENCY_DIAL_FAILED, LATENCY_READ_FAILED, LATENCY_TIMEOUT,
    LATENCY_WRITE_FAILED,
};
use leaf::schedule::{initial_schedule, rebuild_schedule, sort_measures};
use leaf::tryall::{race_winner, staircase_delay, ChildRun};

fn ep(ip: u32, port: u16) -> Endpoint {
    Endpoint { ip: Ip::V4(ip), port }
}

#[test]
fn success_latency_is_elapsed_time() {
    let m = measure_of(3, &ProbeOutcome::Success { elapsed_ms: 42 });
    assert_eq!(m.index, 3);
    assert_eq!(m.latency, 42u128);
}

#[test]
fn every_success_beats_every_failure() {
    let s = measure_of(0, &ProbeOutcome::Success { elapsed_ms: u64::MAX });
    for f in [
        ProbeOutcome::DialFailed,
        ProbeOutcome::Timeout,
        ProbeOutcome::WriteFailed,
        ProbeOutcome::ReadFailed,
    ] {
        let fm = measure_of(1, &f);
        assert!(s.latency < fm.latency);
    }
}

#[test]
fn failure_sentinels_encode_progress() {
    assert!(LATENCY_READ_FAILED < LATENCY_WRITE_FAILED);
    assert!(LATENCY_WRITE_FAILED < LATENCY_TIMEOUT);
    assert!(LATENCY_TIMEOUT < LATENCY_DIAL_FAILED);
    assert_eq!(LATENCY_DIAL_FAILED, u128::MAX);
    assert_eq!(LATENCY_TIMEOUT, u128::MAX - 1);
    assert_eq!(LATENCY_WRITE_FAILED, u128::MAX - 2);
    assert_eq!(LATENCY_READ_FAILED, u128::MAX - 3);
}

#[test]
fn sorting_ranks_by_latency_then_index() {
    let v = vec![
        Measure { index: 0, latency: 40 },
        Measure { index: 1, latency: 10 },
        Measure { index: 2, latency: 10 },
        Measure { index: 3, latency: 5 },
    ];
    let s = sort_measures(&v);
    let order: Vec<usize> = s.iter().map(|m| m.index).collect();
    assert_eq!(order, vec![3, 1, 2, 0]);
}

#[test]
fn ranking_cycle_with_failover_orders_all_children() {
    // Child 0 answers the probe in 40 ms, child 1 in 10 ms.
    let measures = vec![
        measure_of(0, &ProbeOutcome::Success { elapsed_ms: 40 }),
        measure_of(1, &ProbeOutcome::Success { elapsed_ms: 10 }),
    ];
    let sched = rebuild_schedule(&measures, true);
    assert_eq!(sched, vec![1, 0]);
}

#[test]
fn ranking_cycle_with_failure_sentinel() {
    // Child 0 succeeds in 100 ms; child 1 dials and writes but the
    // one-byte read fails.
    let measures = vec![
        measure_of(0, &ProbeOutcome::Success { elapsed_ms: 100 }),
        measure_of(1, &ProbeOutcome::ReadFailed),
    ];
    assert_eq!(measures[1].latency, u128::MAX - 3);
    let sched = rebuild_schedule(&measures, true);
    assert_eq!(sched, vec![0, 1]);
}

#[test]
fn ranking_cycle_without_failover_keeps_only_the_best() {
    let measures = vec![
        measure_of(0, &ProbeOutcome::Success { elapsed_ms: 40 }),
        measure_of(1, &ProbeOutcome::Success { elapsed_ms: 10 }),
        measure_of(2, &ProbeOutcome::Timeout),
    ];
    let sched = rebuild_schedule(&measures, false);
    assert_eq!(sched, vec![1]);
}

#[test]
fn new_failover_handler_starts_on_identity_schedule() {
    let s = FailoverState::new(4, 4, 300, true);
    assert_eq!(s.schedule, vec![0, 1, 2, 3]);
    assert_eq!(initial_schedule(0), Vec::<usize>::new());
}

#[test]
fn schedule_install_replaces_wholesale() {
    let mut s = FailoverState::new(2, 4, 300, true);
    s.install_schedule(vec![1, 0]);
    assert_eq!(s.schedule, vec![1, 0]);
}

#[test]
fn dial_walk_returns_first_scheduled_success() {
    // Schedule [1, 0]; child 1 fails, child 0 accepts.
    let ok = [true, false];
    let mut dial = SerialDial::begin(vec![1, 0], 2);
    let mut won: Option<usize> = None;
    loop {
        match dial.next_step() {
            DialStep::Try { child } => {
                if ok[child] {
                    won = Some(child);
                    break;
                }
                dial.advance();
            }
            DialStep::Invalid => panic!("schedule is valid"),
            DialStep::Exhausted => break,
        }
    }
    assert_eq!(won, Some(0));
}

#[test]
fn dial_walk_exhausts_when_every_child_fails() {
    let mut dial = SerialDial::begin(vec![0, 1, 2], 3);
    let mut steps = 0;
    let won = loop {
        match dial.next_step() {
            DialStep::Try { child: _ } => {
                steps += 1;
                dial.advance();
            }
            DialStep::Invalid => panic!("schedule is valid"),
            DialStep::Exhausted => break None::<usize>,
        }
    };
    assert_eq!(won, None);
    assert_eq!(steps, 3);
}

#[test]
fn dial_walk_refuses_corrupt_schedule_entry() {
    let dial = SerialDial::begin(vec![5], 2);
    assert_eq!(dial.next_step(), DialStep::Invalid);
}

#[test]
fn health_check_task_is_taken_at_most_once() {
    let mut slot: TaskSlot<u32> = TaskSlot::new(Some(7));
    assert_eq!(slot.take(), Some(7));
    assert_eq!(slot.take(), None);
    assert_eq!(slot.take(), None);
    let mut empty: TaskSlot<u32> = TaskSlot::new(None);
    assert_eq!(empty.take(), None);
}

#[test]
fn probe_wire_contract_is_stable() {
    assert_eq!(probe_host(), "www.google.com");
    assert_eq!(probe_port(), 80);
    assert_eq!(probe_request(), b"HEAD / HTTP/1.1\r\n\r\n".to_vec());
}

#[test]
fn staircase_gives_each_child_its_delay() {
    assert_eq!(staircase_delay(50, 0), 0);
    assert_eq!(staircase_delay(50, 1), 50);
    assert_eq!(staircase_delay(50, 3), 150);
    assert_eq!(staircase_delay(0, 7), 0);
}

#[test]
fn head_start_beats_a_faster_late_starter() {
    // Child 0 succeeds in 30 ms, child 1 in 10 ms, but child 1 waits
    // 50 ms before starting: child 0 wins.
    let runs = vec![
        ChildRun { ok: true, duration_ms: 30 },
        ChildRun { ok: true, duration_ms: 10 },
    ];
    assert_eq!(race_winner(50, &runs), Some(0));
}

#[test]
fn without_delay_the_fastest_success_wins() {
    let runs = vec![
        ChildRun { ok: true, duration_ms: 200 },
        ChildRun { ok: false, duration_ms: 1 },
        ChildRun { ok: true, duration_ms: 10 },
    ];
    assert_eq!(race_winner(0, &runs), Some(2));
}

#[test]
fn race_without_any_success_has_no_winner() {
    let runs = vec![
        ChildRun { ok: false, duration_ms: 1 },
        ChildRun { ok: false, duration_ms: 2 },
    ];
    assert_eq!(race_winner(50, &runs), None);
}

#[test]
fn numeric_destination_skips_the_resolver() {
    let dest = SocksAddr::Ip(ep(0x0A000001, 443));
    match dial_plan(&dest) {
        DialPlan::Numeric(e) => assert_eq!(e, ep(0x0A000001, 443)),
        DialPlan::Resolve(_, _) => panic!("numeric destination must not involve the resolver"),
    }
}

#[test]
fn domain_destination_goes_through_the_resolver() {
    let dest = SocksAddr::Domain("example.test".to_string(), 80);
    match dial_plan(&dest) {
        DialPlan::Resolve(host, port) => {
            assert_eq!(host, "example.test");
            assert_eq!(port, 80);
        }
        DialPlan::Numeric(_) => panic!("domain destination must be resolved"),
    }
}

#[test]
fn resolved_candidates_are_tried_in_order() {
    // The resolver returned two addresses; the first refuses, the
    // second accepts: the dial walk picks the second.
    let accepts = [false, true];
    let mut dial = SerialDial::begin(initial_schedule(2), 2);
    let mut connected: Option<usize> = None;
    loop {
        match dial.next_step() {
            DialStep::Try { child } => {
                if accepts[child] {
                    connected = Some(child);
                    break;
                }
                dial.advance();
            }
            DialStep::Invalid => panic!("identity schedule is valid"),
            DialStep::Exhausted => break,
        }
    }
    assert_eq!(connected, Some(1));
}

#[test]
fn composite_error_keeps_last_child_failure() {
    let e = leaf::error::ProxyError::exhausted(Some(ErrorKind::Timeout));
    assert_eq!(e.kind, ErrorKind::OutboundExhausted);
    assert_eq!(e.last_child, Some(ErrorKind::Timeout));
    let s = leaf::error::ProxyError::simple(ErrorKind::DnsFailed);
    assert_eq!(s.kind, ErrorKind::DnsFailed);
    assert_eq!(s.last_child, None);
}

#[test]
fn handler_names_match_their_kinds() {
    assert_eq!(leaf::direct::name(), "direct");
    assert_eq!(leaf::failover::name(), "failover");
    assert_eq!(leaf::tryall::name(), "tryall");
    assert_eq!(leaf::redirect::name(), "redirect");
    assert_eq!(leaf::socks::name(), "socks");
    assert!(leaf::direct::connect_addr().is_none());
    assert!(leaf::failover::connect_addr().is_none());
    assert!(leaf::tryall::connect_addr().is_none());
    assert!(leaf::redirect::connect_addr().is_none());
}
