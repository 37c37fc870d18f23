//! Stage sequencing of a whole recovery run.
//!
//! A run walks a fixed ladder of stages — validate the image path, acquire
//! a probe, unlock, attach, flash, write the two protection words, reset —
//! and aborts on the first failure. Nothing is rolled back: a run that
//! fails after the erase leaves the device erased, which is an accepted
//! terminal state. The front end performs each stage's work and reports
//! only whether it succeeded; every sequencing decision is made here.

use vstd::prelude::*;

use crate::errors::RecoveryError;
use crate::nrf91::PROBE_RETRY_INTERVAL_MS;
use crate::timing::{elapsed_at_least, spec_elapsed_at_least};

verus! {

/// The stages of a recovery run, in the order they are entered.
#[derive(Clone, Copy, Debug, PartialEq, Eq, Structural)]
pub enum Stage {
    /// Check that the image file exists, before any device contact.
    ValidateImage,
    /// Discover and open a debug probe, retrying until the deadline.
    AcquireProbe,
    /// Run the unlock state machine.
    Unlock,
    /// Attach to the named target.
    Attach,
    /// Download the image into flash, with pre-verification.
    Flash,
    /// Write the first protection word.
    ProtectFirst,
    /// Write the second protection word.
    ProtectSecond,
    /// Reset the target core and release the session.
    ResetTarget,
}

/// Where a run stands after zero or more stage outcomes.
#[derive(Clone, Copy, Debug, PartialEq, Eq, Structural)]
pub enum RunStatus {
    /// The named stage is about to run.
    InProgress(Stage),
    /// The named stage failed; every later stage is skipped.
    Failed(Stage),
    /// Every stage completed.
    Complete,
}

/// What the probe-discovery loop does after one attempt.
#[derive(Clone, Copy, Debug, PartialEq, Eq, Structural)]
pub enum ProbeDecision {
    /// A probe was opened; the loop is over.
    Acquired,
    /// No probe yet and time remains: sleep this many milliseconds, retry.
    RetryAfter { ms: u64 },
    /// No probe appeared within the deadline; the run fails.
    TimedOut,
}

/// The stage entered after `s` completes, or `None` after the last one.
pub open spec fn spec_next_stage(s: Stage) -> Option<Stage> {
    match s {
        Stage::ValidateImage => Some(Stage::AcquireProbe),
        Stage::AcquireProbe => Some(Stage::Unlock),
        Stage::Unlock => Some(Stage::Attach),
        Stage::Attach => Some(Stage::Flash),
        Stage::Flash => Some(Stage::ProtectFirst),
        Stage::ProtectFirst => Some(Stage::ProtectSecond),
        Stage::ProtectSecond => Some(Stage::ResetTarget),
        Stage::ResetTarget => None,
    }
}

/// Fail-fast advance: a failed stage ends the run at that stage; a
/// successful one enters the next stage, or completes the run after the
/// last.
pub open spec fn spec_advance(s: Stage, ok: bool) -> RunStatus {
    if !ok {
        RunStatus::Failed(s)
    } else {
        match spec_next_stage(s) {
            Some(n) => RunStatus::InProgress(n),
            None => RunStatus::Complete,
        }
    }
}

/// The stage a run begins with.
pub fn first_stage() -> (s: Stage)
    ensures
        s == Stage::ValidateImage,
{
    Stage::ValidateImage
}

/// Consumes one stage outcome and decides how the run goes on.
pub fn advance(s: Stage, ok: bool) -> (r: RunStatus)
    ensures
        r == spec_advance(s, ok),
{
    if !ok {
        RunStatus::Failed(s)
    } else {
        match s {
            Stage::ValidateImage => RunStatus::InProgress(Stage::AcquireProbe),
            Stage::AcquireProbe => RunStatus::InProgress(Stage::Unlock),
            Stage::Unlock => RunStatus::InProgress(Stage::Attach),
            Stage::Attach => RunStatus::InProgress(Stage::Flash),
            Stage::Flash => RunStatus::InProgress(Stage::ProtectFirst),
            Stage::ProtectFirst => RunStatus::InProgress(Stage::ProtectSecond),
            Stage::ProtectSecond => RunStatus::InProgress(Stage::ResetTarget),
            Stage::ResetTarget => RunStatus::Complete,
        }
    }
}

/// Where a run stands after consuming the stage outcomes `oks` from stage
/// `s`. Outcomes beyond the end of the run are ignored.
pub open spec fn spec_run_stages(s: Stage, oks: Seq<bool>) -> RunStatus
    decreases oks.len(),
{
    if oks.len() == 0 {
        RunStatus::InProgress(s)
    } else {
        match spec_advance(s, oks[0]) {
            RunStatus::InProgress(n) => spec_run_stages(n, oks.drop_first()),
            ended => ended,
        }
    }
}

/// The stages at which work is attempted while consuming the outcomes
/// `oks` from stage `s` — `s` itself included.
pub open spec fn spec_stages_entered(s: Stage, oks: Seq<bool>) -> Seq<Stage>
    decreases oks.len(),
{
    if oks.len() == 0 {
        seq![s]
    } else {
        match spec_advance(s, oks[0]) {
            RunStatus::InProgress(n) => seq![s] + spec_stages_entered(n, oks.drop_first()),
            _ => seq![s],
        }
    }
}

/// Decides whether the image precondition holds: a missing image file is a
/// configuration error and fails the run before any device contact.
pub fn validate_image(image_exists: bool, image_path: String) -> (r: Result<(), RecoveryError>)
    ensures
        r is Ok <==> image_exists,
        !image_exists ==> (r matches Err(RecoveryError::FileNotFound(p)) && p@ == image_path@),
{
    if image_exists {
        Ok(())
    } else {
        Err(RecoveryError::FileNotFound(image_path))
    }
}

/// Probe discovery after one attempt: an open probe ends the loop; a miss
/// after the deadline fails the run; an earlier miss retries after the
/// fixed interval.
pub fn probe_poll(acquired: bool, start_ms: u64, timeout_ms: u64, now_ms: u64) -> (r:
    ProbeDecision)
    ensures
        acquired ==> r == ProbeDecision::Acquired,
        !acquired && spec_elapsed_at_least(start_ms, now_ms, timeout_ms) ==> r
            == ProbeDecision::TimedOut,
        !acquired && !spec_elapsed_at_least(start_ms, now_ms, timeout_ms) ==> r
            == (ProbeDecision::RetryAfter { ms: PROBE_RETRY_INTERVAL_MS }),
{
    if acquired {
        ProbeDecision::Acquired
    } else if elapsed_at_least(start_ms, now_ms, timeout_ms) {
        ProbeDecision::TimedOut
    } else {
        ProbeDecision::RetryAfter { ms: PROBE_RETRY_INTERVAL_MS }
    }
}

/// The error a timed-out probe discovery reports.
pub fn probe_timeout_error() -> (e: RecoveryError)
    ensures
        e == RecoveryError::TimeoutError,
{
    RecoveryError::TimeoutError
}

/// How many stages remain to be run from `s`, `s` itself included.
pub open spec fn spec_stages_left(s: Stage) -> int {
    match s {
        Stage::ValidateImage => 8,
        Stage::AcquireProbe => 7,
        Stage::Unlock => 6,
        Stage::Attach => 5,
        Stage::Flash => 4,
        Stage::ProtectFirst => 3,
        Stage::ProtectSecond => 2,
        Stage::ResetTarget => 1,
    }
}

/// Fail-fast, for every stage and every schedule: if the first failed
/// outcome is the `k`-th one consumed, the run fails at exactly the stage
/// that consumed it — the last stage entered — and no stage beyond it is
/// ever entered. Nothing is retried and nothing is rolled back.
pub proof fn lemma_first_failure_stops_run(s: Stage, oks: Seq<bool>, k: int)
    requires
        0 <= k < oks.len(),
        k < spec_stages_left(s),
        !oks[k],
        forall|i: int| 0 <= i < k ==> oks[i],
    ensures
        spec_stages_entered(s, oks).len() == k + 1,
        spec_run_stages(s, oks) == RunStatus::Failed(spec_stages_entered(s, oks).last()),
    decreases k,
{
    if k == 0 {
    } else {
        let rest = oks.drop_first();
        match spec_next_stage(s) {
            Some(n) => {
                assert(forall|i: int| 0 <= i < k - 1 ==> rest[i] == oks[i + 1]);
                lemma_first_failure_stops_run(n, rest, k - 1);
                assert(spec_stages_entered(s, oks) == seq![s] + spec_stages_entered(n, rest));
                assert(spec_stages_entered(s, oks).last() == spec_stages_entered(n, rest).last());
            },
            None => {},
        }
    }
}

/// A missing image file ends the run at once: the run fails at
/// `ValidateImage` and no other stage is entered — in particular no probe
/// discovery is ever attempted.
pub proof fn lemma_missing_image_stops_run(oks: Seq<bool>)
    requires
        oks.len() >= 1,
        !oks[0],
    ensures
        spec_run_stages(Stage::ValidateImage, oks) == RunStatus::Failed(Stage::ValidateImage),
        spec_stages_entered(Stage::ValidateImage, oks) =~= seq![Stage::ValidateImage],
{
}

/// A probe that never appears ends the run at `AcquireProbe`: the unlock
/// stage — and everything after it — is never entered.
pub proof fn lemma_probe_timeout_stops_run(oks: Seq<bool>)
    requires
        oks.len() >= 2,
        oks[0],
        !oks[1],
    ensures
        spec_run_stages(Stage::ValidateImage, oks) == RunStatus::Failed(Stage::AcquireProbe),
        spec_stages_entered(Stage::ValidateImage, oks) =~= seq![
            Stage::ValidateImage,
            Stage::AcquireProbe,
        ],
{
    let rest = oks.drop_first();
    assert(rest[0] == oks[1]);
    assert(spec_run_stages(Stage::ValidateImage, oks) == spec_run_stages(
        Stage::AcquireProbe,
        rest,
    ));
    assert(spec_stages_entered(Stage::AcquireProbe, rest) =~= seq![Stage::AcquireProbe]);
}

/// The happy path visits every stage exactly once, in the fixed order, and
/// completes: this is the milestone order the front end reports.
pub proof fn lemma_happy_path_visits_all_stages(oks: Seq<bool>)
    requires
        oks.len() == 8,
        forall|i: int| 0 <= i < oks.len() ==> oks[i],
    ensures
        spec_run_stages(Stage::ValidateImage, oks) == RunStatus::Complete,
        spec_stages_entered(Stage::ValidateImage, oks) =~= seq![
            Stage::ValidateImage,
            Stage::AcquireProbe,
            Stage::Unlock,
            Stage::Attach,
            Stage::Flash,
            Stage::ProtectFirst,
            Stage::ProtectSecond,
            Stage::ResetTarget,
        ],
{
    let o1 = oks.drop_first();
    let o2 = o1.drop_first();
    let o3 = o2.drop_first();
    let o4 = o3.drop_first();
    let o5 = o4.drop_first();
    let o6 = o5.drop_first();
    let o7 = o6.drop_first();
    let o8 = o7.drop_first();
    assert(o1[0] == oks[1] && o2[0] == oks[2] && o3[0] == oks[3] && o4[0] == oks[4] && o5[0]
        == oks[5] && o6[0] == oks[6] && o7[0] == oks[7]);
    assert(o8.len() == 0);
    assert(spec_run_stages(Stage::ValidateImage, oks) == spec_run_stages(Stage::AcquireProbe, o1));
    assert(spec_run_stages(Stage::AcquireProbe, o1) == spec_run_stages(Stage::Unlock, o2));
    assert(spec_run_stages(Stage::Unlock, o2) == spec_run_stages(Stage::Attach, o3));
    assert(spec_run_stages(Stage::Attach, o3) == spec_run_stages(Stage::Flash, o4));
    assert(spec_run_stages(Stage::Flash, o4) == spec_run_stages(Stage::ProtectFirst, o5));
    assert(spec_run_stages(Stage::ProtectFirst, o5) == spec_run_stages(Stage::ProtectSecond, o6));
    assert(spec_run_stages(Stage::ProtectSecond, o6) == spec_run_stages(Stage::ResetTarget, o7));
    assert(spec_run_stages(Stage::ResetTarget, o7) == RunStatus::Complete);
    assert(spec_stages_entered(Stage::ResetTarget, o7) =~= seq![Stage::ResetTarget]);
    assert(spec_stages_entered(Stage::ProtectSecond, o6) =~= seq![Stage::ProtectSecond]
        + spec_stages_entered(Stage::ResetTarget, o7));
    assert(spec_stages_entered(Stage::ProtectFirst, o5) =~= seq![Stage::ProtectFirst]
        + spec_stages_entered(Stage::ProtectSecond, o6));
    assert(spec_stages_entered(Stage::Flash, o4) =~= seq![Stage::Flash] + spec_stages_entered(
        Stage::ProtectFirst,
        o5,
    ));
    assert(spec_stages_entered(Stage::Attach, o3) =~= seq![Stage::Attach] + spec_stages_entered(
        Stage::Flash,
        o4,
    ));
    assert(spec_stages_entered(Stage::Unlock, o2) =~= seq![Stage::Unlock] + spec_stages_entered(
        Stage::Attach,
        o3,
    ));
    assert(spec_stages_entered(Stage::AcquireProbe, o1) =~= seq![Stage::AcquireProbe]
        + spec_stages_entered(Stage::Unlock, o2));
    assert(spec_stages_entered(Stage::ValidateImage, oks) =~= seq![Stage::ValidateImage]
        + spec_stages_entered(Stage::AcquireProbe, o1));
}

} // verus!
