use vstd::prelude::*;

use crate::app::{PingEvent, PingResult};

verus! {

/// Where a probe session for one host stands.
#[derive(Clone, Copy, Debug, PartialEq, Eq)]
pub enum PingPhase {
    /// Waiting for the host name to resolve to an address.
    Resolving,
    /// Waiting for the ICMP client to open.
    Connecting,
    /// Probing; `seq` is the sequence number of the probe in flight.
    Pinging { seq: u16 },
    /// The session ended after an error.
    Finished,
}

/// What happened outside the session.
pub enum PingInput {
    /// The host name resolved to an address.
    Resolved,
    /// The host name could not be resolved.
    ResolveFailed(String),
    /// The ICMP client is open.
    ClientReady,
    /// The ICMP client could not be opened.
    ClientFailed(String),
    /// The probe in flight got a reply after `latency_us` microseconds.
    Reply { latency_us: u64 },
    /// The probe in flight got no reply in time.
    NoReply,
}

/// What the session asks to be done next.
pub enum PingAction {
    /// Open an ICMP client for the resolved address.
    Connect,
    /// Send the probe with sequence number `seq`.
    Probe { seq: u16 },
    /// Send `event` to the monitor, wait one probe interval, then send
    /// the probe with sequence number `next_seq`.
    Report { event: PingEvent, next_seq: u16 },
    /// Send `event` to the monitor and end the session.
    ReportAndStop { event: PingEvent },
    /// Nothing: the input does not belong to the current phase.
    Ignore,
}

/// The sequence number after `seq`, wrapping around after `u16::MAX`.
pub open spec fn next_seq(seq: u16) -> u16 {
    ((seq + 1) % 65536) as u16
}

/// The phase after `input` arrives in `phase`.
pub open spec fn next_phase(phase: PingPhase, input: PingInput) -> PingPhase {
    match (phase, input) {
        (PingPhase::Resolving, PingInput::Resolved) => PingPhase::Connecting,
        (PingPhase::Resolving, PingInput::ResolveFailed(_)) => PingPhase::Finished,
        (PingPhase::Connecting, PingInput::ClientReady) => PingPhase::Pinging { seq: 0 },
        (PingPhase::Connecting, PingInput::ClientFailed(_)) => PingPhase::Finished,
        (PingPhase::Pinging { seq }, PingInput::Reply { .. }) => PingPhase::Pinging {
            seq: next_seq(seq),
        },
        (PingPhase::Pinging { seq }, PingInput::NoReply) => PingPhase::Pinging {
            seq: next_seq(seq),
        },
        _ => phase,
    }
}

/// The action of a session for `host` when `input` arrives in `phase`.
pub open spec fn action_for(host: String, phase: PingPhase, input: PingInput) -> PingAction {
    match (phase, input) {
        (PingPhase::Resolving, PingInput::Resolved) => PingAction::Connect,
        (PingPhase::Resolving, PingInput::ResolveFailed(msg)) => PingAction::ReportAndStop {
            event: PingEvent { host, result: PingResult::Error(msg) },
        },
        (PingPhase::Connecting, PingInput::ClientReady) => PingAction::Probe { seq: 0 },
        (PingPhase::Connecting, PingInput::ClientFailed(msg)) => PingAction::ReportAndStop {
            event: PingEvent { host, result: PingResult::Error(msg) },
        },
        (PingPhase::Pinging { seq }, PingInput::Reply { latency_us }) => PingAction::Report {
            event: PingEvent { host, result: PingResult::Reply { latency_us } },
            next_seq: next_seq(seq),
        },
        (PingPhase::Pinging { seq }, PingInput::NoReply) => PingAction::Report {
            event: PingEvent { host, result: PingResult::Timeout },
            next_seq: next_seq(seq),
        },
        _ => PingAction::Ignore,
    }
}

/// The decisions of the probe loop for one host: resolve, open a client,
/// then probe forever, reporting each outcome; an error is reported once
/// and ends the session.
pub struct PingSession {
    pub host: String,
    pub phase: PingPhase,
}

impl PingSession {
    /// A session for `host` that starts by resolving it.
    pub fn new(host: String) -> (s: Self)
        ensures
            s.host == host,
            s.phase == PingPhase::Resolving,
    {
        PingSession { host, phase: PingPhase::Resolving }
    }

    /// Takes in what happened and says what to do next.
    pub fn step(&mut self, input: PingInput) -> (action: PingAction)
        ensures
            final(self).host == old(self).host,
            final(self).phase == next_phase(old(self).phase, input),
            action == action_for(old(self).host, old(self).phase, input),
    {
        match (self.phase, input) {
            (PingPhase::Resolving, PingInput::Resolved) => {
                self.phase = PingPhase::Connecting;
                PingAction::Connect
            },
            (PingPhase::Resolving, PingInput::ResolveFailed(msg)) => {
                self.phase = PingPhase::Finished;
                PingAction::ReportAndStop {
                    event: PingEvent { host: self.host.clone(), result: PingResult::Error(msg) },
                }
            },
            (PingPhase::Connecting, PingInput::ClientReady) => {
                self.phase = PingPhase::Pinging { seq: 0 };
                PingAction::Probe { seq: 0 }
            },
            (PingPhase::Connecting, PingInput::ClientFailed(msg)) => {
                self.phase = PingPhase::Finished;
                PingAction::ReportAndStop {
                    event: PingEvent { host: self.host.clone(), result: PingResult::Error(msg) },
                }
            },
            (PingPhase::Pinging { seq }, PingInput::Reply { latency_us }) => {
                let next = seq.wrapping_add(1);
                self.phase = PingPhase::Pinging { seq: next };
                PingAction::Report {
                    event: PingEvent {
                        host: self.host.clone(),
                        result: PingResult::Reply { latency_us },
                    },
                    next_seq: next,
                }
            },
            (PingPhase::Pinging { seq }, PingInput::NoReply) => {
                let next = seq.wrapping_add(1);
                self.phase = PingPhase::Pinging { seq: next };
                PingAction::Report {
                    event: PingEvent { host: self.host.clone(), result: PingResult::Timeout },
                    next_seq: next,
                }
            },
            _ => PingAction::Ignore,
        }
    }
}

/// The phase after a run of inputs, oldest first.
pub open spec fn run_phase(phase: PingPhase, inputs: Seq<PingInput>) -> PingPhase
    decreases inputs.len(),
{
    if inputs.len() == 0 {
        phase
    } else {
        next_phase(run_phase(phase, inputs.drop_last()), inputs.last())
    }
}

/// The input is the outcome of a probe.
pub open spec fn is_probe_outcome(input: PingInput) -> bool {
    input is Reply || input is NoReply
}

/// A finished session stays finished and does nothing more, whatever
/// happens.
pub proof fn law_finished_is_final(host: String, input: PingInput)
    ensures
        next_phase(PingPhase::Finished, input) == PingPhase::Finished,
        action_for(host, PingPhase::Finished, input) is Ignore,
{
}

/// An error while resolving or connecting is reported once, as an error
/// event for the session's host, and ends the session.
pub proof fn law_error_ends_session(host: String, msg: String)
    ensures
        next_phase(PingPhase::Resolving, PingInput::ResolveFailed(msg)) == PingPhase::Finished,
        action_for(host, PingPhase::Resolving, PingInput::ResolveFailed(msg)) == (PingAction::ReportAndStop {
            event: PingEvent { host, result: PingResult::Error(msg) },
        }),
        next_phase(PingPhase::Connecting, PingInput::ClientFailed(msg)) == PingPhase::Finished,
        action_for(host, PingPhase::Connecting, PingInput::ClientFailed(msg)) == (PingAction::ReportAndStop {
            event: PingEvent { host, result: PingResult::Error(msg) },
        }),
{
}

/// Each probe outcome is reported as exactly one event for the session's
/// host (a reply with its latency, a lost probe as a timeout) and the
/// next probe uses the next sequence number.
pub proof fn law_one_report_per_probe(host: String, seq: u16, input: PingInput)
    requires
        is_probe_outcome(input),
    ensures
        next_phase(PingPhase::Pinging { seq }, input) == (PingPhase::Pinging { seq: next_seq(seq) }),
        action_for(host, PingPhase::Pinging { seq }, input) == (PingAction::Report {
            event: PingEvent {
                host,
                result: match input {
                    PingInput::Reply { latency_us } => PingResult::Reply { latency_us },
                    _ => PingResult::Timeout,
                },
            },
            next_seq: next_seq(seq),
        }),
{
}

/// Sequence numbers count the probes, modulo 2^16: after `n` probe
/// outcomes starting from sequence number `seq`, the probe in flight has
/// number `(seq + n) mod 65536`.
pub proof fn law_sequence_counts_probes(seq: u16, inputs: Seq<PingInput>)
    requires
        forall|i: int| 0 <= i < inputs.len() ==> is_probe_outcome(#[trigger] inputs[i]),
    ensures
        run_phase(PingPhase::Pinging { seq }, inputs) == (PingPhase::Pinging {
            seq: ((seq + inputs.len()) % 65536) as u16,
        }),
    decreases inputs.len(),
{
    if inputs.len() > 0 {
        let t = inputs.drop_last();
        assert forall|i: int| 0 <= i < t.len() implies is_probe_outcome(#[trigger] t[i]) by {
            assert(t[i] == inputs[i]);
        }
        law_sequence_counts_probes(seq, t);
        assert(is_probe_outcome(inputs[inputs.len() - 1]));
        let k = ((seq + t.len()) % 65536) as u16;
        assert(((k + 1) % 65536) == ((seq + inputs.len()) % 65536));
    }
}

} // verus!
