use crate::errors::TransferError;
use vstd::prelude::*;
use vstd::string::StringExecFns;

verus! {

/// One unit of work: a named source URL to fetch, compress, and persist.
///
/// Immutable once constructed; owned by the task that processes it.
#[derive(Clone, Debug)]
pub struct Job {
    /// Unique within a batch; the artifact's file name derives from it.
    pub symbol: String,
    /// The URL to fetch.
    pub url: String,
    /// Extra request headers, attached beside the fixed identifying header.
    pub headers: Vec<(String, String)>,
}

/// The terminal record of one job, produced by the retry controller and
/// consumed exactly once by the batch orchestrator.
#[derive(Clone, Debug)]
pub struct JobOutcome {
    /// The job's symbol.
    pub symbol: String,
    /// Whether the job eventually succeeded.
    pub success: bool,
    /// How many attempts ran, the successful one included.
    pub attempts_used: u64,
    /// The failure that ended the last attempt, for a failed job.
    pub last_error: Option<TransferError>,
}

impl JobOutcome {
    /// A well-formed outcome: at least one attempt ran, and a last error is
    /// recorded exactly for a failed job.
    pub open spec fn wf(&self) -> bool {
        &&& self.attempts_used >= 1
        &&& self.success <==> self.last_error is None
    }
}

/// Derives the artifact's file name from a job's symbol: the symbol with
/// the compressed-artifact suffix appended. Deterministic, so every run of
/// the same job targets the same path and overwrites rather than piling up.
pub fn artifact_name(symbol: &str) -> (r: String)
    ensures
        r@ == symbol@ + ".zst"@,
{
    let mut name: String = symbol.to_owned();
    name.append(".zst");
    name
}

} // verus!
