//! The packet sender: one magic packet per hardware address, in the order
//! given, whatever becomes of each single send.
//!
//! The sender is a state machine. The caller owns the socket: it hands in
//! what happened to the last action and gets back the reports to publish and
//! the next action to perform.

use crate::destination::Destination;
use crate::packet::{magic_packet, magic_packet_spec};
use vstd::prelude::*;

verus! {

/// A link-layer address of six bytes.
#[derive(Clone, Copy, Debug, PartialEq, Eq)]
pub struct HardwareAddress {
    pub octets: [u8; 6],
}

impl View for HardwareAddress {
    type V = Seq<u8>;

    /// The six bytes of the address, in the order in which they are sent.
    open spec fn view(&self) -> Seq<u8> {
        self.octets@
    }
}

/// What a run was asked to do.
#[derive(Clone, Debug, PartialEq, Eq)]
pub struct Args {
    /// Destination URI.
    pub host: String,
    /// Destination port.
    pub port: u16,
    /// Whether reports are published.
    pub verbose: bool,
    /// Whether sending is only reported and not done.
    pub dry_run: bool,
    /// The hardware addresses to wake, in the order in which they are worked through.
    pub mac: Vec<HardwareAddress>,
}

/// How far a batch has come: the number of addresses already attempted.
#[derive(Clone, Copy, Debug, PartialEq, Eq)]
pub struct SendProgress {
    pub attempted: usize,
}

/// What happened to the action that the sender asked for last.
#[derive(Clone, Debug, PartialEq, Eq)]
pub enum SendEvent {
    /// Nothing yet: the batch begins.
    Started,
    /// The datagram was handed to the network.
    Sent,
    /// The address was skipped, as asked.
    Skipped,
    /// The datagram could not be sent.
    Failed { reason: String },
}

/// What the caller is to do next.
#[derive(Clone, Copy, Debug, PartialEq, Eq)]
pub enum SendAction {
    /// Send `packet` to `destination` as one datagram.
    Transmit { destination: Destination, packet: [u8; 102] },
    /// Send nothing: `packet` is what would have gone to `destination`.
    Skip { destination: Destination, packet: [u8; 102] },
    /// The batch is over.
    Finish,
}

/// How much a report matters.
#[derive(Clone, Copy, Debug, PartialEq, Eq)]
pub enum Severity {
    Info,
    Error,
}

/// What the sender has to say about one address.
#[derive(Clone, Debug, PartialEq, Eq)]
pub enum Report {
    /// The magic packet for `target` is due to `destination`: it is sent
    /// next, or skipped in a dry run.
    Attempt { target: HardwareAddress, destination: Destination },
    /// The magic packet for `target` could not be sent to `destination`.
    SendFailed { target: HardwareAddress, destination: Destination, reason: String },
}

/// One turn of the sender: the state after it, the reports to publish in
/// their order, and the action to perform.
#[derive(Clone, Debug, PartialEq, Eq)]
pub struct SendTurn {
    pub progress: SendProgress,
    pub reports: Vec<Report>,
    pub action: SendAction,
}

impl SendProgress {
    /// The state of a batch of which nothing has been attempted.
    pub fn start() -> (progress: SendProgress)
        ensures
            progress.attempted == 0,
    {
        SendProgress { attempted: 0 }
    }
}

impl Report {
    /// An attempt is informational, a failed send is an error.
    pub open spec fn severity_spec(self) -> Severity {
        match self {
            Report::Attempt { .. } => Severity::Info,
            Report::SendFailed { .. } => Severity::Error,
        }
    }

    /// The severity at which the report is published.
    pub fn severity(&self) -> (severity: Severity)
        ensures
            severity == self.severity_spec(),
    {
        match self {
            Report::Attempt { .. } => Severity::Info,
            Report::SendFailed { .. } => Severity::Error,
        }
    }
}

/// Whether the action asked for last was a transmission, so that its failure
/// is something to report.
pub open spec fn awaits_outcome(cfg: Args, progress: SendProgress) -> bool {
    !cfg.dry_run && 0 < progress.attempted <= cfg.mac@.len()
}

/// The failure report of a turn: one for the address attempted last, where
/// its transmission failed, and none otherwise.
pub open spec fn failure_reports(
    dest: Destination,
    cfg: Args,
    progress: SendProgress,
    event: SendEvent,
) -> Seq<Report> {
    if event is Failed && awaits_outcome(cfg, progress) {
        seq![
            Report::SendFailed {
                target: cfg.mac@[progress.attempted - 1],
                destination: dest,
                reason: event->reason,
            },
        ]
    } else {
        Seq::empty()
    }
}

/// The attempt report of a turn: one for the next address, where one is left.
pub open spec fn attempt_reports(dest: Destination, cfg: Args, progress: SendProgress) -> Seq<
    Report,
> {
    if progress.attempted < cfg.mac@.len() {
        seq![Report::Attempt { target: cfg.mac@[progress.attempted as int], destination: dest }]
    } else {
        Seq::empty()
    }
}

/// The number of addresses attempted after a turn that began with
/// `attempted` of them: one more, where one was left.
pub open spec fn next_attempted(cfg: Args, attempted: nat) -> nat {
    if attempted < cfg.mac@.len() {
        attempted + 1
    } else {
        attempted
    }
}

/// Whether `action` is what the sender asks for when `index` addresses have
/// been attempted: the end of the batch where no address is left, and else
/// the magic packet of the next address for `dest`, to be sent, or to be
/// skipped in a dry run.
pub open spec fn is_action_at(action: SendAction, dest: Destination, cfg: Args, index: int)
    -> bool {
    if index < 0 || index >= cfg.mac@.len() {
        action is Finish
    } else if cfg.dry_run {
        action matches SendAction::Skip { destination, packet } && destination == dest
            && packet@ == magic_packet_spec(cfg.mac@[index]@)
    } else {
        action matches SendAction::Transmit { destination, packet } && destination == dest
            && packet@ == magic_packet_spec(cfg.mac@[index]@)
    }
}

/// Whether `turn` is the turn that a batch at `progress` takes on `event`.
pub open spec fn is_turn(
    turn: SendTurn,
    dest: Destination,
    cfg: Args,
    progress: SendProgress,
    event: SendEvent,
) -> bool {
    &&& turn.progress.attempted == next_attempted(cfg, progress.attempted as nat)
    &&& turn.reports@ =~= failure_reports(dest, cfg, progress, event) + attempt_reports(
        dest,
        cfg,
        progress,
    )
    &&& is_action_at(turn.action, dest, cfg, progress.attempted as int)
}

/// Whether `turns` are the turns of one batch from its start, each taken on
/// the event at its place in `events` and from the state that the turn
/// before it left.
pub open spec fn is_batch(
    turns: Seq<SendTurn>,
    dest: Destination,
    cfg: Args,
    events: Seq<SendEvent>,
) -> bool {
    &&& turns.len() == events.len()
    &&& forall|k: int|
        0 <= k < turns.len() ==> is_turn(
            #[trigger] turns[k],
            dest,
            cfg,
            if k == 0 {
                SendProgress { attempted: 0 }
            } else {
                turns[k - 1].progress
            },
            events[k],
        )
}

/// The number of addresses that a batch has attempted when it has taken
/// `turns` turns: one for each turn, until none is left.
pub open spec fn attempted_after(cfg: Args, turns: int) -> usize {
    if turns <= cfg.mac@.len() {
        turns as usize
    } else {
        cfg.mac@.len() as usize
    }
}

/// Takes one turn of a batch.
///
/// `event` says what became of the action of the turn before. A failed
/// transmission is reported and changes nothing else: the turn goes on to
/// the next address, announces it, builds its packet, and asks for the
/// packet to be sent, or to be skipped in a dry run. When no address is left
/// the batch is over.
pub fn send_magic_packets(
    dest: Destination,
    cfg: &Args,
    progress: SendProgress,
    event: SendEvent,
) -> (turn: SendTurn)
    ensures
        is_turn(turn, dest, *cfg, progress, event),
{
    let mut reports: Vec<Report> = Vec::new();
    if let SendEvent::Failed { reason } = event {
        if !cfg.dry_run && 0 < progress.attempted && progress.attempted <= cfg.mac.len() {
            let target = cfg.mac[progress.attempted - 1];
            reports.push(Report::SendFailed { target, destination: dest, reason });
        }
    }
    if progress.attempted < cfg.mac.len() {
        let target = cfg.mac[progress.attempted];
        reports.push(Report::Attempt { target, destination: dest });
        let packet = magic_packet(&target.octets);
        let action = if cfg.dry_run {
            SendAction::Skip { destination: dest, packet }
        } else {
            SendAction::Transmit { destination: dest, packet }
        };
        SendTurn { progress: SendProgress { attempted: progress.attempted + 1 }, reports, action }
    } else {
        SendTurn { progress, reports, action: SendAction::Finish }
    }
}

/// Every address is attempted exactly once, in the order given, whatever
/// happens to the sends.
///
/// In any batch, turn `k` is the turn of a sender that has attempted the
/// first `k` addresses, or all of them where there are fewer: it announces
/// the address at `k` and asks for its packet, and is the end of the batch
/// where no address is left. The events before it, failed sends among them,
/// have no part in that; the event of the turn itself decides only whether a
/// failure is reported.
pub proof fn lemma_each_address_once_in_order(
    turns: Seq<SendTurn>,
    dest: Destination,
    cfg: Args,
    events: Seq<SendEvent>,
    k: int,
)
    requires
        is_batch(turns, dest, cfg, events),
        0 <= k < turns.len(),
    ensures
        is_turn(
            turns[k],
            dest,
            cfg,
            SendProgress { attempted: attempted_after(cfg, k) },
            events[k],
        ),
        turns[k].progress.attempted == attempted_after(cfg, k + 1),
        is_action_at(turns[k].action, dest, cfg, k),
    decreases k,
{
    assert(cfg.mac@.len() == cfg.mac.len());
    if k > 0 {
        lemma_each_address_once_in_order(turns, dest, cfg, events, k - 1);
    }
}

} // verus!
