//! The agent's own decisions: the provisioned keys, the report transport,
//! and the escalation policy for the driver's self-integrity reports.
//! Integrity violations are counted; a run of consecutive violations ends
//! the process with a clean exit code instead of a crash, and a query that
//! failed neither resets nor extends the run.

use vstd::prelude::*;

verus! {

/// `std::io::Error`, carried through opaquely.
#[verifier::external_type_specification]
#[verifier::external_body]
pub struct ExIoError(std::io::Error);

/// Consecutive integrity violations after which the agent exits.
pub const MAX_INTEGRITY_FAILURES: u32 = 3;

/// The exit code of a shutdown for integrity violations.
pub const INTEGRITY_EXIT_CODE: i32 = 2;

/// What the agent does with a driver integrity report.
#[derive(Debug, Clone, Copy, PartialEq, Eq, Structural)]
pub enum IntegrityAction {
    /// The driver is intact; the run of violations is over.
    Healthy,
    /// A violation, with the length of the current run; when `shutdown`
    /// is set, the run has reached the limit and the agent exits with
    /// `INTEGRITY_EXIT_CODE`.
    Violation { consecutive: u32, shutdown: bool },
    /// The query itself failed; it is only logged.
    QueryFailed,
}

/// Counts consecutive driver integrity violations.
pub struct IntegrityMonitor {
    consecutive_failures: u32,
}

impl View for IntegrityMonitor {
    type V = u32;

    /// The length of the current run of violations.
    closed spec fn view(&self) -> u32 {
        self.consecutive_failures
    }
}

/// One report: `Some(true)` intact, `Some(false)` violated, `None` the
/// query failed. Gives the new run length and the action.
pub open spec fn monitor_step(count: u32, report: Option<bool>) -> (u32, IntegrityAction) {
    match report {
        Some(true) => (0, IntegrityAction::Healthy),
        Some(false) => {
            let c = (count + 1) as u32;
            (c, IntegrityAction::Violation { consecutive: c, shutdown: c >= MAX_INTEGRITY_FAILURES })
        },
        None => (count, IntegrityAction::QueryFailed),
    }
}

/// The run length after a history of reports, starting from none.
pub open spec fn monitor_run(history: Seq<Option<bool>>) -> u32
    decreases history.len(),
{
    if history.len() == 0 {
        0
    } else {
        monitor_step(monitor_run(history.drop_last()), history.last()).0
    }
}

/// The number of violations since the last intact report, not counting
/// failed queries.
pub open spec fn trailing_violations(history: Seq<Option<bool>>) -> nat
    decreases history.len(),
{
    if history.len() == 0 {
        0
    } else {
        match history.last() {
            Some(true) => 0,
            Some(false) => trailing_violations(history.drop_last()) + 1,
            None => trailing_violations(history.drop_last()),
        }
    }
}

impl IntegrityMonitor {
    /// A monitor with no violations counted.
    pub fn new() -> (r: Self)
        ensures
            r@ == 0,
    {
        IntegrityMonitor { consecutive_failures: 0 }
    }

    /// Takes one report. Called only while the agent runs, that is, before
    /// a run of violations has reached the limit.
    pub fn record(&mut self, report: Option<bool>) -> (r: IntegrityAction)
        requires
            old(self)@ < MAX_INTEGRITY_FAILURES,
        ensures
            (final(self)@, r) == monitor_step(old(self)@, report),
    {
        match report {
            Some(true) => {
                self.consecutive_failures = 0;
                IntegrityAction::Healthy
            },
            Some(false) => {
                self.consecutive_failures = self.consecutive_failures + 1;
                IntegrityAction::Violation {
                    consecutive: self.consecutive_failures,
                    shutdown: self.consecutive_failures >= MAX_INTEGRITY_FAILURES,
                }
            },
            None => IntegrityAction::QueryFailed,
        }
    }
}

/// The monitor counts exactly the violations since the last intact report,
/// failed queries neither resetting nor extending the run, and it calls
/// for a shutdown exactly when that count reaches the limit — as long as no
/// earlier report already did.
pub proof fn lemma_monitor_counts_trailing_violations(history: Seq<Option<bool>>)
    requires
        forall|i: int| 0 <= i < history.len() ==> trailing_violations(history.take(i)) < MAX_INTEGRITY_FAILURES,
    ensures
        monitor_run(history) == trailing_violations(history),
        history.len() > 0 ==> (monitor_step(monitor_run(history.drop_last()), history.last()).1
            matches IntegrityAction::Violation { shutdown: true, .. } <==> trailing_violations(history)
            >= MAX_INTEGRITY_FAILURES),
    decreases history.len(),
{
    if history.len() > 0 {
        let prefix = history.drop_last();
        assert forall|i: int| 0 <= i < prefix.len() implies trailing_violations(prefix.take(i))
            < MAX_INTEGRITY_FAILURES by {
            assert(prefix.take(i) =~= history.take(i));
        }
        lemma_monitor_counts_trailing_violations(prefix);
        assert(history.take(prefix.len() as int) =~= prefix);
    }
}

/// Prepares logging. Nothing to do: the agent logs through the `log`
/// facade, and the program that runs it installs a logger.
pub fn env_logger_init() {
}

/// The server's pinned X25519 public key. Not provisioned in this build:
/// all zero.
pub fn load_server_public_key() -> (r: [u8; 32])
    ensures
        r@ == Seq::new(32, |i: int| 0u8),
{
    let r = [0u8; 32];
    assert(r@ =~= Seq::new(32, |i: int| 0u8));
    r
}

/// The key shared with the driver. Not provisioned in this build: all
/// zero.
pub fn load_driver_hmac_key() -> (r: [u8; 32])
    ensures
        r@ == Seq::new(32, |i: int| 0u8),
{
    let r = [0u8; 32];
    assert(r@ =~= Seq::new(32, |i: int| 0u8));
    r
}

/// Hands a report to the server transport. No transport is part of this
/// build, so every report is taken as sent.
pub fn send_to_server(_payload: &[u8]) -> (r: std::io::Result<()>)
    ensures
        r is Ok,
{
    Ok(())
}

} // verus!
