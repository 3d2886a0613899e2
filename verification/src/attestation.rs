//! Reading the report of the attestation script.
//!
//! The script runs as a separate process. Its exit status says only whether
//! it ran to its end; whether the attestation was confirmed is read from
//! what it printed.

use vstd::prelude::*;

verus! {

/// How a run of the script ended, as the caller saw it.
#[derive(Clone, Debug, PartialEq, Eq)]
pub enum ScriptRun {
    /// The process could not be started.
    NotLaunched,
    /// The process ended. `success` is whether its exit status was zero,
    /// `stdout` is what it printed to standard output.
    Exited { success: bool, stdout: String },
}

/// What a report says of the attestation.
#[derive(Clone, Copy, Debug, PartialEq, Eq, Structural)]
pub enum VerificationStatus {
    /// The report holds the confirmation marker.
    Confirmed,
    /// The report holds no confirmation yet.
    Pending,
}

/// Why no status could be read.
#[derive(Clone, Copy, Debug, PartialEq, Eq, Structural)]
pub enum VerifyError {
    /// The script could not be started.
    LaunchFailed,
    /// The script ended with a failure status.
    ScriptFailed,
}

/// The lower-case form of a text, as `str::to_lowercase` gives it.
pub uninterp spec fn lowercase_of(text: Seq<char>) -> Seq<char>;

/// `needle` stands somewhere in `haystack`, character for character.
pub open spec fn has_substring(haystack: Seq<char>, needle: Seq<char>) -> bool {
    exists|start: int|
        0 <= start && start + needle.len() <= haystack.len() && #[trigger] haystack.subrange(
            start,
            start + needle.len(),
        ) == needle
}

/// The words by which a report confirms the attestation, in lower case.
pub open spec fn confirmation_marker() -> Seq<char> {
    "attestation confirmed"@
}

/// What a report in lower case says: confirmed where it holds the
/// marker, pending otherwise.
pub open spec fn status_of_text(lowered: Seq<char>) -> VerificationStatus {
    if has_substring(lowered, confirmation_marker()) {
        VerificationStatus::Confirmed
    } else {
        VerificationStatus::Pending
    }
}

/// What a run amounts to. A run that did not start or that failed gives
/// no status; of one that succeeded the report is read without regard to
/// case.
pub open spec fn run_outcome(run: ScriptRun) -> Result<VerificationStatus, VerifyError> {
    match run {
        ScriptRun::NotLaunched => Err(VerifyError::LaunchFailed),
        ScriptRun::Exited { success, stdout } => if success {
            Ok(status_of_text(lowercase_of(stdout@)))
        } else {
            Err(VerifyError::ScriptFailed)
        },
    }
}

/// The body of the reply for a status.
pub open spec fn payload_text(status: VerificationStatus) -> Seq<char> {
    match status {
        VerificationStatus::Confirmed =>
            "{\"status\": \"success\", \"message\": \"Proof verified and attestation confirmed!\"}"@,
        VerificationStatus::Pending =>
            "{\"status\": \"pending\", \"message\": \"Verification in progress\"}"@,
    }
}

/// `str::to_lowercase`: the text with each character replaced by its
/// lower-case form under Unicode's rules. The contract gives the result
/// its name and says nothing else of it.
#[verifier::external_body]
fn lowercased(text: &str) -> (lowered: String)
    ensures
        lowered@ == lowercase_of(text@),
{
    text.to_lowercase()
}

/// `str::contains` with a string as the pattern: whether the pattern
/// occurs in the text as a run of consecutive characters.
#[verifier::external_body]
fn text_contains(haystack: &str, needle: &str) -> (found: bool)
    ensures
        found == has_substring(haystack@, needle@),
{
    haystack.contains(needle)
}

/// Reads a report that is already in lower case.
pub fn status_of_lowered(lowered: &str) -> (status: VerificationStatus)
    ensures
        status == status_of_text(lowered@),
{
    if text_contains(lowered, "attestation confirmed") {
        VerificationStatus::Confirmed
    } else {
        VerificationStatus::Pending
    }
}

/// Decides what a run of the script amounts to.
pub fn interpret_run(run: &ScriptRun) -> (outcome: Result<VerificationStatus, VerifyError>)
    ensures
        outcome == run_outcome(*run),
{
    match run {
        ScriptRun::NotLaunched => Err(VerifyError::LaunchFailed),
        ScriptRun::Exited { success, stdout } => {
            if *success {
                let lowered = lowercased(stdout.as_str());
                Ok(status_of_lowered(lowered.as_str()))
            } else {
                Err(VerifyError::ScriptFailed)
            }
        },
    }
}

/// The body of the reply for a status.
pub fn status_payload(status: VerificationStatus) -> (body: String)
    ensures
        body@ == payload_text(status),
{
    match status {
        VerificationStatus::Confirmed => String::from_str(
            "{\"status\": \"success\", \"message\": \"Proof verified and attestation confirmed!\"}",
        ),
        VerificationStatus::Pending => String::from_str(
            "{\"status\": \"pending\", \"message\": \"Verification in progress\"}",
        ),
    }
}

} // verus!
