use vstd::prelude::*;

verus! {

/// How a status probe of the backend went.
#[derive(Debug, Clone, PartialEq, Eq)]
pub enum ProbeOutcome {
    /// No connection could be made.
    Unreachable,
    /// The call was made and failed, with the failure's description.
    Failed(String),
    /// The backend answered, with its message.
    Answered(String),
}

#[derive(Debug, Clone, PartialEq, Eq)]
pub struct HealthResponse {
    pub is_healthy: bool,
    pub message: String,
}

#[derive(Debug, Clone, PartialEq, Eq)]
pub struct ReadinessResponse {
    pub is_ready: bool,
    pub message: String,
}

pub open spec fn unreachable_text() -> Seq<char> {
    seq![
        'F', 'a', 'i', 'l', 'e', 'd', ' ', 't', 'o', ' ', 'c', 'o', 'n', 'n', 'e', 'c', 't', ' ',
        't', 'o', ' ', 'r', 'e', 'g', 'i', 's', 't', 'r', 'y',
    ]
}

/// Whether the probe reached a backend that answered, and what to report.
pub open spec fn probe_report(outcome: ProbeOutcome) -> (bool, Seq<char>) {
    match outcome {
        ProbeOutcome::Unreachable => (false, unreachable_text()),
        ProbeOutcome::Failed(e) => (false, e@),
        ProbeOutcome::Answered(m) => (true, m@),
    }
}

fn report(outcome: ProbeOutcome) -> (r: (bool, String))
    ensures
        (r.0, r.1@) == probe_report(outcome),
{
    match outcome {
        ProbeOutcome::Unreachable => {
            let text = "Failed to connect to registry".to_owned();
            proof {
                reveal_strlit("Failed to connect to registry");
                assert(text@ =~= unreachable_text());
            }
            (false, text)
        },
        ProbeOutcome::Failed(e) => (false, e),
        ProbeOutcome::Answered(m) => (true, m),
    }
}

/// The health report for a probe: healthy only when the backend answered;
/// a failure is reported, never raised.
pub fn health_response(outcome: ProbeOutcome) -> (r: HealthResponse)
    ensures
        (r.is_healthy, r.message@) == probe_report(outcome),
{
    let (is_healthy, message) = report(outcome);
    HealthResponse { is_healthy, message }
}

/// The readiness report for a probe: ready only when the backend answered;
/// a failure is reported, never raised.
pub fn readiness_response(outcome: ProbeOutcome) -> (r: ReadinessResponse)
    ensures
        (r.is_ready, r.message@) == probe_report(outcome),
{
    let (is_ready, message) = report(outcome);
    ReadinessResponse { is_ready, message }
}

} // verus!
