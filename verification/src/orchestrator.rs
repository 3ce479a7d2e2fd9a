//! Sequencing of the two protocol phases and the mapping of each outcome to
//! a process report.
//!
//! The phases themselves — the TLS-based key establishment and the
//! authenticated NTP exchange — are external collaborators. The caller
//! performs each one and hands its result back; the functions here decide
//! what follows: proceed to time synchronization, or finish with a report
//! that fixes the diagnostic text, the output lines and the exit code.

use vstd::prelude::*;
use vstd::string::StringExecFns;
use crate::report::{TimeSyncResult, format_offset_line, format_stratum_line, offset_line_rep,
    stratum_line_rep};

verus! {

/// Exit code of a successful run.
pub const SUCCESS_EXIT: u8 = 0;

/// Exit code when key establishment fails.
pub const KE_FAILURE_EXIT: u8 = 125;

/// Exit code when the time-synchronization exchange fails.
pub const NTP_FAILURE_EXIT: u8 = 126;

/// A failure reported by the key-establishment collaborator, already
/// rendered as text by the caller.
#[derive(Clone, Debug, PartialEq, Eq)]
pub struct KeError {
    pub detail: String,
}

/// A failure reported by the time-synchronization collaborator, already
/// rendered as text by the caller.
#[derive(Clone, Debug, PartialEq, Eq)]
pub struct NtpError {
    pub detail: String,
}

/// How a finished run presents itself to the operator: at most one
/// diagnostic line on the error channel, or the two result lines on
/// standard output, and in every case an exit code.
#[derive(Clone, Debug, PartialEq, Eq)]
pub enum Report {
    /// Key establishment failed; nothing further was attempted.
    KeFailure { diagnostic: String },
    /// Key establishment succeeded but the time exchange failed.
    NtpFailure { diagnostic: String },
    /// Both phases succeeded.
    Success { stratum_line: String, offset_line: String },
}

impl Report {
    /// The exit code that belongs to this report. The two failure codes are
    /// distinct, so a calling script can tell the failed phase apart without
    /// parsing text.
    pub open spec fn exit_code_spec(self) -> u8 {
        match self {
            Report::KeFailure { .. } => KE_FAILURE_EXIT,
            Report::NtpFailure { .. } => NTP_FAILURE_EXIT,
            Report::Success { .. } => SUCCESS_EXIT,
        }
    }

    /// Returns the exit code that belongs to this report.
    pub fn exit_code(&self) -> (c: u8)
        ensures
            c == self.exit_code_spec(),
    {
        match self {
            Report::KeFailure { .. } => KE_FAILURE_EXIT,
            Report::NtpFailure { .. } => NTP_FAILURE_EXIT,
            Report::Success { .. } => SUCCESS_EXIT,
        }
    }
}

/// What the orchestrator does after key establishment: run the time
/// exchange with the negotiated state, or finish at once.
pub enum NextStep<S> {
    /// Key establishment succeeded; run the time exchange with this state.
    TimeSync(S),
    /// The run is over; emit this report.
    Finish(Report),
}

/// Decides the step after key establishment. A failure is terminal — the
/// time exchange is never reached — and maps to the key-establishment exit
/// code. A success hands the negotiated state on unchanged.
///
/// The negotiated state is opaque at this layer, so the function is generic
/// over it.
pub fn after_key_establishment<S>(res: Result<S, KeError>) -> (step: NextStep<S>)
    ensures
        res matches Ok(state) ==> step == NextStep::<S>::TimeSync(state),
        res matches Err(e) ==> (step matches NextStep::Finish(rep) && rep matches Report::KeFailure {
            diagnostic,
        } && diagnostic@ == "failure of tls stage "@ + e.detail@ && rep.exit_code_spec()
            == KE_FAILURE_EXIT),
{
    match res {
        Ok(state) => NextStep::TimeSync(state),
        Err(e) => {
            let mut diagnostic = String::from_str("failure of tls stage ");
            diagnostic.append(e.detail.as_str());
            NextStep::Finish(Report::KeFailure { diagnostic })
        },
    }
}

/// Decides the report after the time exchange. A failure maps to the
/// time-synchronization exit code; a success to the two output lines and
/// the success code.
pub fn after_time_sync(res: Result<TimeSyncResult, NtpError>) -> (rep: Report)
    ensures
        res matches Ok(t) ==> (rep matches Report::Success { stratum_line, offset_line }
            && stratum_line@ == stratum_line_rep(t) && offset_line@ == offset_line_rep(t)
            && rep.exit_code_spec() == SUCCESS_EXIT),
        res matches Err(e) ==> (rep matches Report::NtpFailure { diagnostic } && diagnostic@
            == "Failure of client "@ + e.detail@ && rep.exit_code_spec() == NTP_FAILURE_EXIT),
{
    match res {
        Ok(t) => Report::Success {
            stratum_line: format_stratum_line(&t),
            offset_line: format_offset_line(&t),
        },
        Err(e) => {
            let mut diagnostic = String::from_str("Failure of client ");
            diagnostic.append(e.detail.as_str());
            Report::NtpFailure { diagnostic }
        },
    }
}

} // verus!
