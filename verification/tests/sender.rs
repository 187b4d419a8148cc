use wakeonwan::{
    magic_packet, send_magic_packets, Args, Destination, HardwareAddress, HostAddress, Report,
    SendAction, SendEvent, SendProgress, SendTurn, Severity,
};

const BROADCAST: Destination =
    Destination { address: HostAddress::V4 { octets: [255, 255, 255, 255] }, port: 9 };

const FIRST: HardwareAddress = HardwareAddress { octets: [0x00, 0x11, 0x22, 0x33, 0x44, 0x55] };

const SECOND: HardwareAddress = HardwareAddress { octets: [0xAA, 0xBB, 0xCC, 0xDD, 0xEE, 0xFF] };

const THIRD: HardwareAddress = HardwareAddress { octets: [0x01, 0x02, 0x03, 0x04, 0x05, 0x06] };

fn args(mac: Vec<HardwareAddress>, dry_run: bool) -> Args {
    Args { host: "255.255.255.255".to_string(), port: 9, verbose: false, dry_run, mac }
}

/// What a run of a whole batch showed: the reports in the order of their
/// publication, and the datagrams that were handed to the socket.
struct Run {
    reports: Vec<Report>,
    datagrams: Vec<(Destination, Vec<u8>)>,
    turns: usize,
}

/// Runs a batch to its end against a socket that fails the sends whose
/// number, counted from 0, is in `failing`.
fn run(dest: Destination, cfg: &Args, failing: &[usize]) -> Run {
    let mut reports = Vec::new();
    let mut datagrams = Vec::new();
    let mut turns = 0;
    let mut progress = SendProgress::start();
    let mut event = SendEvent::Started;
    loop {
        let turn = send_magic_packets(dest, cfg, progress, event);
        turns += 1;
        assert!(turns <= cfg.mac.len() + 1, "the batch must end after its last address");
        reports.extend(turn.reports);
        progress = turn.progress;
        event = match turn.action {
            SendAction::Transmit { destination, packet } => {
                let number = datagrams.len();
                datagrams.push((destination, packet.to_vec()));
                if failing.contains(&number) {
                    SendEvent::Failed { reason: format!("send {} refused", number) }
                } else {
                    SendEvent::Sent
                }
            }
            SendAction::Skip { .. } => SendEvent::Skipped,
            SendAction::Finish => break,
        };
    }
    Run { reports, datagrams, turns }
}

#[test]
fn dry_run_reports_two_attempts_and_sends_nothing() {
    let cfg = args(vec![FIRST, SECOND], true);
    let seen = run(BROADCAST, &cfg, &[]);
    assert_eq!(seen.turns, 3);
    assert!(seen.datagrams.is_empty());
    assert_eq!(
        seen.reports,
        vec![
            Report::Attempt { target: FIRST, destination: BROADCAST },
            Report::Attempt { target: SECOND, destination: BROADCAST },
        ]
    );
    assert!(seen.reports.iter().all(|r| r.severity() == Severity::Info));
}

#[test]
fn dry_run_turn_by_turn() {
    let cfg = args(vec![FIRST, SECOND], true);
    let first = send_magic_packets(BROADCAST, &cfg, SendProgress::start(), SendEvent::Started);
    assert_eq!(
        first,
        SendTurn {
            progress: SendProgress { attempted: 1 },
            reports: vec![Report::Attempt { target: FIRST, destination: BROADCAST }],
            action: SendAction::Skip {
                destination: BROADCAST,
                packet: magic_packet(&FIRST.octets),
            },
        }
    );
    let second = send_magic_packets(BROADCAST, &cfg, first.progress, SendEvent::Skipped);
    assert_eq!(
        second,
        SendTurn {
            progress: SendProgress { attempted: 2 },
            reports: vec![Report::Attempt { target: SECOND, destination: BROADCAST }],
            action: SendAction::Skip {
                destination: BROADCAST,
                packet: magic_packet(&SECOND.octets),
            },
        }
    );
    let last = send_magic_packets(BROADCAST, &cfg, second.progress, SendEvent::Skipped);
    assert_eq!(
        last,
        SendTurn {
            progress: SendProgress { attempted: 2 },
            reports: Vec::new(),
            action: SendAction::Finish,
        }
    );
}

#[test]
fn failed_send_is_reported_once_and_the_batch_completes() {
    let cfg = args(vec![FIRST], false);
    let seen = run(BROADCAST, &cfg, &[0]);
    assert_eq!(seen.turns, 2);
    assert_eq!(seen.datagrams, vec![(BROADCAST, magic_packet(&FIRST.octets).to_vec())]);
    assert_eq!(
        seen.reports,
        vec![
            Report::Attempt { target: FIRST, destination: BROADCAST },
            Report::SendFailed {
                target: FIRST,
                destination: BROADCAST,
                reason: "send 0 refused".to_string(),
            },
        ]
    );
    let failures = seen.reports.iter().filter(|r| r.severity() == Severity::Error).count();
    assert_eq!(failures, 1);
}

#[test]
fn failed_send_does_not_stop_the_batch() {
    let cfg = args(vec![FIRST, SECOND, THIRD], false);
    let seen = run(BROADCAST, &cfg, &[0, 1]);
    assert_eq!(seen.turns, 4);
    assert_eq!(
        seen.datagrams,
        vec![
            (BROADCAST, magic_packet(&FIRST.octets).to_vec()),
            (BROADCAST, magic_packet(&SECOND.octets).to_vec()),
            (BROADCAST, magic_packet(&THIRD.octets).to_vec()),
        ]
    );
    assert_eq!(
        seen.reports,
        vec![
            Report::Attempt { target: FIRST, destination: BROADCAST },
            Report::SendFailed {
                target: FIRST,
                destination: BROADCAST,
                reason: "send 0 refused".to_string(),
            },
            Report::Attempt { target: SECOND, destination: BROADCAST },
            Report::SendFailed {
                target: SECOND,
                destination: BROADCAST,
                reason: "send 1 refused".to_string(),
            },
            Report::Attempt { target: THIRD, destination: BROADCAST },
        ]
    );
}

#[test]
fn every_address_is_sent_once_in_order() {
    let cfg = args(vec![THIRD, FIRST, THIRD, SECOND], false);
    for failing in [vec![], vec![0], vec![3], vec![1, 2], vec![0, 1, 2, 3]] {
        let seen = run(BROADCAST, &cfg, &failing);
        assert_eq!(seen.turns, 5);
        let sent: Vec<Vec<u8>> = seen.datagrams.iter().map(|d| d.1.clone()).collect();
        let expected: Vec<Vec<u8>> =
            cfg.mac.iter().map(|m| magic_packet(&m.octets).to_vec()).collect();
        assert_eq!(sent, expected);
        let announced: Vec<HardwareAddress> = seen
            .reports
            .iter()
            .filter_map(|r| match r {
                Report::Attempt { target, .. } => Some(*target),
                Report::SendFailed { .. } => None,
            })
            .collect();
        assert_eq!(announced, cfg.mac);
        let failures = seen.reports.iter().filter(|r| r.severity() == Severity::Error).count();
        assert_eq!(failures, failing.len());
    }
}

#[test]
fn transmit_carries_the_magic_packet_and_the_destination() {
    let dest = Destination {
        address: HostAddress::V6 { octets: [0xFE; 16], flowinfo: 0, scope_id: 2 },
        port: 7,
    };
    let cfg = args(vec![SECOND], false);
    let turn = send_magic_packets(dest, &cfg, SendProgress::start(), SendEvent::Started);
    let mut packet = [0xFFu8; 102];
    for i in 0..16 {
        packet[6 + 6 * i..12 + 6 * i].copy_from_slice(&[0xAA, 0xBB, 0xCC, 0xDD, 0xEE, 0xFF]);
    }
    assert_eq!(
        turn,
        SendTurn {
            progress: SendProgress { attempted: 1 },
            reports: vec![Report::Attempt { target: SECOND, destination: dest }],
            action: SendAction::Transmit { destination: dest, packet },
        }
    );
}

#[test]
fn empty_batch_is_over_at_once() {
    let cfg = args(Vec::new(), false);
    let turn = send_magic_packets(BROADCAST, &cfg, SendProgress::start(), SendEvent::Started);
    assert_eq!(
        turn,
        SendTurn {
            progress: SendProgress { attempted: 0 },
            reports: Vec::new(),
            action: SendAction::Finish,
        }
    );
    let seen = run(BROADCAST, &cfg, &[]);
    assert_eq!(seen.turns, 1);
    assert!(seen.reports.is_empty());
    assert!(seen.datagrams.is_empty());
}

#[test]
fn failure_of_the_last_send_is_reported_with_the_finish() {
    let cfg = args(vec![FIRST, SECOND], false);
    let turn = send_magic_packets(
        BROADCAST,
        &cfg,
        SendProgress { attempted: 2 },
        SendEvent::Failed { reason: "network unreachable".to_string() },
    );
    assert_eq!(
        turn,
        SendTurn {
            progress: SendProgress { attempted: 2 },
            reports: vec![Report::SendFailed {
                target: SECOND,
                destination: BROADCAST,
                reason: "network unreachable".to_string(),
            }],
            action: SendAction::Finish,
        }
    );
}

#[test]
fn failure_without_a_transmission_is_not_reported() {
    let failed = SendEvent::Failed { reason: "permission denied".to_string() };
    let cfg = args(vec![FIRST, SECOND], false);
    let at_start = send_magic_packets(BROADCAST, &cfg, SendProgress::start(), failed.clone());
    assert_eq!(at_start.reports, vec![Report::Attempt { target: FIRST, destination: BROADCAST }]);
    let beyond = send_magic_packets(BROADCAST, &cfg, SendProgress { attempted: 3 }, failed.clone());
    assert_eq!(
        beyond,
        SendTurn {
            progress: SendProgress { attempted: 3 },
            reports: Vec::new(),
            action: SendAction::Finish,
        }
    );
    let dry = args(vec![FIRST, SECOND], true);
    let skipped = send_magic_packets(BROADCAST, &dry, SendProgress { attempted: 1 }, failed);
    assert_eq!(
        skipped,
        SendTurn {
            progress: SendProgress { attempted: 2 },
            reports: vec![Report::Attempt { target: SECOND, destination: BROADCAST }],
            action: SendAction::Skip {
                destination: BROADCAST,
                packet: magic_packet(&SECOND.octets),
            },
        }
    );
}

#[test]
fn the_event_decides_only_the_failure_report() {
    let cfg = args(vec![FIRST, SECOND, THIRD], false);
    let progress = SendProgress { attempted: 1 };
    let quiet = send_magic_packets(BROADCAST, &cfg, progress, SendEvent::Sent);
    let loud = send_magic_packets(
        BROADCAST,
        &cfg,
        progress,
        SendEvent::Failed { reason: "no route".to_string() },
    );
    assert_eq!(quiet.progress, loud.progress);
    assert_eq!(quiet.action, loud.action);
    assert_eq!(quiet.reports, vec![Report::Attempt { target: SECOND, destination: BROADCAST }]);
    assert_eq!(loud.reports.len(), 2);
    assert_eq!(loud.reports[1], quiet.reports[0]);
    for event in [SendEvent::Started, SendEvent::Skipped] {
        assert_eq!(send_magic_packets(BROADCAST, &cfg, progress, event), quiet);
    }
}

#[test]
fn report_severity() {
    let attempt = Report::Attempt { target: FIRST, destination: BROADCAST };
    let failure =
        Report::SendFailed { target: FIRST, destination: BROADCAST, reason: String::new() };
    assert_eq!(attempt.severity(), Severity::Info);
    assert_eq!(failure.severity(), Severity::Error);
}

#[test]
fn progress_starts_at_zero() {
    assert_eq!(SendProgress::start(), SendProgress { attempted: 0 });
}
