use nrf_recovery::errors::UnlockFailure;
use nrf_recovery::transport::{ApRequest, Reply};
use nrf_recovery::unlock::{start, UnlockState, UnlockStep, UnlockSuccess};

const DBG_ENABLED_CSW: u32 = 0x40;

/// Feeds the machine one scripted reply after another, collecting every
/// request it issues, until the run ends.
fn drive(force: bool, script: &[(Reply, u64)]) -> (Vec<ApRequest>, UnlockStep) {
    let (mut state, first) = start(force);
    let mut requests = vec![first];
    for &(reply, now_ms) in script {
        match state.step(reply, now_ms) {
            UnlockStep::Next(next, request) => {
                requests.push(request);
                state = next;
            }
            ended => return (requests, ended),
        }
    }
    panic!("script ended before the run did");
}

#[test]
fn start_issues_a_csw_read() {
    let (state, request) = start(false);
    assert_eq!(state, UnlockState::AwaitInitialCsw { force: false });
    assert_eq!(request, ApRequest::Read { ap: 0, addr: 0x000 });
}

#[test]
fn already_unlocked_short_circuits_without_writes() {
    let (requests, ended) = drive(false, &[(Reply::Value(DBG_ENABLED_CSW), 0)]);
    assert_eq!(ended, UnlockStep::Done(UnlockSuccess::AlreadyUnlocked));
    assert_eq!(requests, vec![ApRequest::Read { ap: 0, addr: 0x000 }]);
    assert!(requests.iter().all(|r| !matches!(r, ApRequest::Write { .. })));
}

#[test]
fn force_unlock_proceeds_despite_unlocked_status() {
    let (state, _) = start(true);
    let step = state.step(Reply::Value(DBG_ENABLED_CSW), 0);
    assert_eq!(
        step,
        UnlockStep::Next(
            UnlockState::AwaitIdr,
            ApRequest::Read { ap: 4, addr: 0x0FC }
        )
    );
}

#[test]
fn locked_device_proceeds_to_idr_check() {
    let (state, _) = start(false);
    let step = state.step(Reply::Value(0), 0);
    assert_eq!(
        step,
        UnlockStep::Next(
            UnlockState::AwaitIdr,
            ApRequest::Read { ap: 4, addr: 0x0FC }
        )
    );
}

#[test]
fn zero_idr_fails_before_any_write() {
    let (requests, ended) = drive(false, &[(Reply::Value(0), 0), (Reply::Value(0), 1)]);
    assert_eq!(ended, UnlockStep::Failed(UnlockFailure::InvalidCtrlApIdr));
    assert_eq!(
        requests,
        vec![
            ApRequest::Read { ap: 0, addr: 0x000 },
            ApRequest::Read { ap: 4, addr: 0x0FC },
        ]
    );
    assert!(requests.iter().all(|r| !matches!(r, ApRequest::Write { .. })));
}

#[test]
fn unreadable_idr_is_a_transport_failure() {
    // A failed register access propagates as such, distinct from the
    // configuration error a zero IDR reports — and still before any write.
    let (requests, ended) = drive(false, &[(Reply::Value(0), 0), (Reply::Fault, 1)]);
    assert_eq!(ended, UnlockStep::Failed(UnlockFailure::Transport));
    assert!(requests.iter().all(|r| !matches!(r, ApRequest::Write { .. })));
}

#[test]
fn full_unlock_requests_in_protocol_order() {
    let script = [
        (Reply::Value(0), 0),            // CSW: locked
        (Reply::Value(0x1234_5678), 10), // IDR: present
        (Reply::Ack, 20),                // ERASEALL = 1 acknowledged
        (Reply::Value(0), 520),          // ERASEALLSTATUS: erase complete
        (Reply::Ack, 530),               // 10 ms settle done
        (Reply::Ack, 540),               // RESET = 1 acknowledged
        (Reply::Ack, 550),               // RESET = 0 acknowledged
        (Reply::Ack, 570),               // 20 ms settle done
        (Reply::Value(DBG_ENABLED_CSW), 580), // CSW: unlocked
    ];
    let (requests, ended) = drive(false, &script);
    assert_eq!(ended, UnlockStep::Done(UnlockSuccess::UnlockedAfterErase));
    assert_eq!(
        requests,
        vec![
            ApRequest::Read { ap: 0, addr: 0x000 },
            ApRequest::Read { ap: 4, addr: 0x0FC },
            ApRequest::Write { ap: 4, addr: 0x004, value: 1 },
            ApRequest::Read { ap: 4, addr: 0x008 },
            ApRequest::Sleep { ms: 10 },
            ApRequest::Write { ap: 4, addr: 0x000, value: 1 },
            ApRequest::Write { ap: 4, addr: 0x000, value: 0 },
            ApRequest::Sleep { ms: 20 },
            ApRequest::Read { ap: 0, addr: 0x000 },
        ]
    );
}

#[test]
fn erase_status_polls_every_half_second() {
    let state = UnlockState::AwaitEraseStatus { started_ms: 100 };
    let step = state.step(Reply::Value(1), 600);
    assert_eq!(
        step,
        UnlockStep::Next(
            UnlockState::AwaitErasePause { started_ms: 100 },
            ApRequest::Sleep { ms: 500 }
        )
    );
    let pause = UnlockState::AwaitErasePause { started_ms: 100 };
    assert_eq!(
        pause.step(Reply::Ack, 1100),
        UnlockStep::Next(
            UnlockState::AwaitEraseStatus { started_ms: 100 },
            ApRequest::Read { ap: 4, addr: 0x008 }
        )
    );
}

#[test]
fn erase_timeout_proceeds_to_reset() {
    let state = UnlockState::AwaitEraseStatus { started_ms: 0 };
    // One millisecond before the ceiling the machine keeps polling.
    assert_eq!(
        state.step(Reply::Value(1), 14_999),
        UnlockStep::Next(
            UnlockState::AwaitErasePause { started_ms: 0 },
            ApRequest::Sleep { ms: 500 }
        )
    );
    // At the ceiling it gives up on the status and moves to the reset.
    assert_eq!(
        state.step(Reply::Value(1), 15_000),
        UnlockStep::Next(
            UnlockState::AwaitPreResetPause,
            ApRequest::Sleep { ms: 10 }
        )
    );
}

#[test]
fn verify_window_fails_after_one_second_locked() {
    let state = UnlockState::AwaitVerifyCsw { reset_ms: 100 };
    // Exactly at the window's edge the machine still polls.
    assert_eq!(
        state.step(Reply::Value(0), 1100),
        UnlockStep::Next(
            UnlockState::AwaitVerifyPause { reset_ms: 100 },
            ApRequest::Sleep { ms: 100 }
        )
    );
    // Strictly past the window a locked observation is fatal.
    assert_eq!(
        state.step(Reply::Value(0), 1101),
        UnlockStep::Failed(UnlockFailure::DebugPortDisabled)
    );
}

#[test]
fn verify_succeeds_on_first_unlocked_observation() {
    let state = UnlockState::AwaitVerifyCsw { reset_ms: 0 };
    // Success is recognised even past the window: the window only limits
    // how long a locked status is tolerated.
    assert_eq!(
        state.step(Reply::Value(DBG_ENABLED_CSW), 5000),
        UnlockStep::Done(UnlockSuccess::UnlockedAfterErase)
    );
}

#[test]
fn transport_fault_is_fatal_at_every_register_access() {
    let (state, _) = start(false);
    assert_eq!(
        state.step(Reply::Fault, 0),
        UnlockStep::Failed(UnlockFailure::Transport)
    );
    assert_eq!(
        UnlockState::AwaitIdr.step(Reply::Fault, 0),
        UnlockStep::Failed(UnlockFailure::Transport)
    );
    assert_eq!(
        UnlockState::AwaitEraseStarted.step(Reply::Fault, 0),
        UnlockStep::Failed(UnlockFailure::Transport)
    );
    assert_eq!(
        UnlockState::AwaitResetAssert.step(Reply::Fault, 0),
        UnlockStep::Failed(UnlockFailure::Transport)
    );
}

#[test]
fn failure_messages_name_the_cause() {
    assert_eq!(
        UnlockFailure::InvalidCtrlApIdr.message(),
        "Invalid CTRL-AP IDR, check AP index"
    );
    assert_eq!(
        UnlockFailure::DebugPortDisabled.message(),
        "Debug status = 0, access port not enabled"
    );
    assert_eq!(
        UnlockFailure::Transport.message(),
        "Access port register access failed"
    );
}
