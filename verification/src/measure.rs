use vstd::prelude::*;

verus! {

/// The probe dial itself failed: the worst outcome.
pub const LATENCY_DIAL_FAILED: u128 = u128::MAX;

/// The probe did not finish inside its deadline; better than a failed dial.
pub const LATENCY_TIMEOUT: u128 = u128::MAX - 1;

/// The dial succeeded but writing the probe request failed.
pub const LATENCY_WRITE_FAILED: u128 = u128::MAX - 2;

/// Dial and write succeeded but reading the one-byte reply failed: the
/// most progress a failing probe can make.
pub const LATENCY_READ_FAILED: u128 = u128::MAX - 3;

/// What a single health probe of one child observed.  Elapsed time is
/// wall time in milliseconds from just before the dial to after the read.
#[derive(Clone, Copy, Debug, PartialEq, Eq, Structural)]
pub enum ProbeOutcome {
    Success { elapsed_ms: u64 },
    DialFailed,
    Timeout,
    WriteFailed,
    ReadFailed,
}

impl ProbeOutcome {
    pub open spec fn is_success(self) -> bool {
        self is Success
    }
}

/// A probe result folded onto the latency scale: real milliseconds for a
/// success, and the top of the scale for failures so that any success
/// ranks ahead of any failure, and a failure that made more handshake
/// progress ranks ahead of one that made less.
pub open spec fn outcome_latency(o: ProbeOutcome) -> u128 {
    match o {
        ProbeOutcome::Success { elapsed_ms } => elapsed_ms as u128,
        ProbeOutcome::DialFailed => LATENCY_DIAL_FAILED,
        ProbeOutcome::Timeout => LATENCY_TIMEOUT,
        ProbeOutcome::WriteFailed => LATENCY_WRITE_FAILED,
        ProbeOutcome::ReadFailed => LATENCY_READ_FAILED,
    }
}

/// One measured child: its position in the child list and its latency,
/// real or sentinel.
#[derive(Clone, Copy, Debug, PartialEq, Eq, Structural)]
pub struct Measure {
    pub index: usize,
    pub latency: u128,
}

impl Measure {
    /// A latency below every sentinel can only come from a completed probe.
    pub open spec fn is_success(self) -> bool {
        self.latency < LATENCY_READ_FAILED
    }
}

/// Records one probe outcome against the child it measured.
pub fn measure_of(index: usize, outcome: &ProbeOutcome) -> (m: Measure)
    ensures
        m.index == index,
        m.latency == outcome_latency(*outcome),
        outcome.is_success() ==> m.is_success(),
        !outcome.is_success() ==> !m.is_success(),
{
    let latency: u128 = match outcome {
        ProbeOutcome::Success { elapsed_ms } => *elapsed_ms as u128,
        ProbeOutcome::DialFailed => LATENCY_DIAL_FAILED,
        ProbeOutcome::Timeout => LATENCY_TIMEOUT,
        ProbeOutcome::WriteFailed => LATENCY_WRITE_FAILED,
        ProbeOutcome::ReadFailed => LATENCY_READ_FAILED,
    };
    Measure { index, latency }
}

/// Every success ranks strictly ahead of every failure: a completed probe
/// records at most `u64::MAX` milliseconds, below the lowest sentinel.
pub proof fn lemma_success_beats_failure(s: ProbeOutcome, f: ProbeOutcome)
    requires
        s.is_success(),
        !f.is_success(),
    ensures
        outcome_latency(s) < outcome_latency(f),
{
}

/// Among failures, more handshake progress means a strictly better rank:
/// a failed read beats a failed write beats a timeout beats a failed dial.
pub proof fn lemma_failure_progress_order()
    ensures
        LATENCY_READ_FAILED < LATENCY_WRITE_FAILED,
        LATENCY_WRITE_FAILED < LATENCY_TIMEOUT,
        LATENCY_TIMEOUT < LATENCY_DIAL_FAILED,
{
}

} // verus!
