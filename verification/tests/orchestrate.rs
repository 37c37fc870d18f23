use nrf_recovery::errors::RecoveryError;
use nrf_recovery::orchestrate::{
    advance, first_stage, probe_poll, probe_timeout_error, validate_image, ProbeDecision,
    RunStatus, Stage,
};

/// Runs the stage ladder against per-stage outcomes, collecting the stages
/// that were entered.
fn drive(outcomes: &[bool]) -> (Vec<Stage>, RunStatus) {
    let mut stage = first_stage();
    let mut entered = vec![stage];
    for &ok in outcomes {
        match advance(stage, ok) {
            RunStatus::InProgress(next) => {
                entered.push(next);
                stage = next;
            }
            ended => return (entered, ended),
        }
    }
    panic!("outcomes ended before the run did");
}

#[test]
fn happy_path_visits_every_stage_in_order() {
    let (entered, ended) = drive(&[true; 8]);
    assert_eq!(ended, RunStatus::Complete);
    assert_eq!(
        entered,
        vec![
            Stage::ValidateImage,
            Stage::AcquireProbe,
            Stage::Unlock,
            Stage::Attach,
            Stage::Flash,
            Stage::ProtectFirst,
            Stage::ProtectSecond,
            Stage::ResetTarget,
        ]
    );
}

#[test]
fn missing_image_fails_before_probe_discovery() {
    let (entered, ended) = drive(&[false]);
    assert_eq!(ended, RunStatus::Failed(Stage::ValidateImage));
    assert_eq!(entered, vec![Stage::ValidateImage]);
}

#[test]
fn probe_timeout_fails_before_unlock() {
    let (entered, ended) = drive(&[true, false]);
    assert_eq!(ended, RunStatus::Failed(Stage::AcquireProbe));
    assert_eq!(entered, vec![Stage::ValidateImage, Stage::AcquireProbe]);
}

#[test]
fn any_stage_failure_aborts_the_rest() {
    let (entered, ended) = drive(&[true, true, true, true, false]);
    assert_eq!(ended, RunStatus::Failed(Stage::Flash));
    assert_eq!(entered.last(), Some(&Stage::Flash));
}

#[test]
fn validate_image_rejects_a_missing_file() {
    assert_eq!(validate_image(true, String::from("a.hex")), Ok(()));
    assert_eq!(
        validate_image(false, String::from("a.hex")),
        Err(RecoveryError::FileNotFound(String::from("a.hex")))
    );
}

#[test]
fn probe_discovery_retries_until_the_deadline() {
    assert_eq!(probe_poll(true, 0, 500, 0), ProbeDecision::Acquired);
    assert_eq!(
        probe_poll(false, 0, 500, 499),
        ProbeDecision::RetryAfter { ms: 100 }
    );
    assert_eq!(probe_poll(false, 0, 500, 500), ProbeDecision::TimedOut);
    // A clock that runs backwards counts as no time elapsed.
    assert_eq!(
        probe_poll(false, 1000, 500, 900),
        ProbeDecision::RetryAfter { ms: 100 }
    );
    assert_eq!(probe_timeout_error(), RecoveryError::TimeoutError);
}
