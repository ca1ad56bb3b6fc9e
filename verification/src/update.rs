use vstd::prelude::*;

verus! {

/// Structured result of an update-availability check, as handed to the UI
/// layer.
#[derive(Clone, PartialEq, Eq, Debug)]
pub struct UpdateCheckResult {
    pub available: bool,
    pub version: Option<String>,
    pub current_version: String,
    pub body: Option<String>,
}

/// The three outcomes the host update service can report.
#[derive(Clone, PartialEq, Eq, Debug)]
pub enum UpdateOutcome {
    /// An update is available, carrying its version and optional release
    /// notes.
    Found { version: String, body: Option<String> },
    /// No update is available.
    NotFound,
    /// The check itself failed, carrying a human-readable message.
    Failed { message: String },
}

/// Invariant every successful result obeys: "no update available" carries
/// neither a version nor release notes.
pub open spec fn update_result_wf(r: UpdateCheckResult) -> bool {
    !r.available ==> r.version is None && r.body is None
}

/// Normalize the host update service's report into the result record the UI
/// layer consumes. A found update is passed through with the process's own
/// current version attached; "not found" yields a result with no version and
/// no notes; a failed check is surfaced as an error with its message, never
/// silently downgraded to "no update".
pub fn normalize_update_outcome(outcome: UpdateOutcome, current_version: String) -> (r: Result<
    UpdateCheckResult,
    String,
>)
    ensures
        outcome matches UpdateOutcome::Found { version, body } ==> r == Ok::<
            UpdateCheckResult,
            String,
        >(
            (UpdateCheckResult {
                available: true,
                version: Option::Some(version),
                current_version: current_version,
                body: body,
            }),
        ),
        outcome is NotFound ==> r == Ok::<UpdateCheckResult, String>(
            (UpdateCheckResult {
                available: false,
                version: Option::None,
                current_version: current_version,
                body: Option::None,
            }),
        ),
        outcome matches UpdateOutcome::Failed { message } ==> r == Err::<
            UpdateCheckResult,
            String,
        >(message),
        r is Err <==> outcome is Failed,
        r matches Ok(res) ==> update_result_wf(res) && res.current_version == current_version,
{
    match outcome {
        UpdateOutcome::Found { version, body } => Ok(
            UpdateCheckResult {
                available: true,
                version: Some(version),
                current_version,
                body,
            },
        ),
        UpdateOutcome::NotFound => Ok(
            UpdateCheckResult {
                available: false,
                version: None,
                current_version,
                body: None,
            },
        ),
        UpdateOutcome::Failed { message } => Err(message),
    }
}

} // verus!
