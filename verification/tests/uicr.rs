use nrf_recovery::errors::UicrFailure;
use nrf_recovery::nrf91::{
    APPROTECT_HW_DISABLE, UICR_APPROTECT_ADDR, UICR_SECUREAPPROTECT_ADDR,
};
use nrf_recovery::transport::{CoreRequest, Reply};
use nrf_recovery::uicr::{start, write_allowed, UicrPhase, UicrStep, UicrWriter};

/// Feeds the writer one scripted reply after another, collecting every
/// request it issues, until the run ends.
fn drive(addr: u64, value: u32, script: &[Reply]) -> (Vec<CoreRequest>, UicrStep) {
    let (mut writer, first) = start(addr, value);
    let mut requests = vec![first];
    for &reply in script {
        match writer.step(reply) {
            UicrStep::Next(next, request) => {
                requests.push(request);
                writer = next;
            }
            ended => return (requests, ended),
        }
    }
    panic!("script ended before the run did");
}

#[test]
fn start_reads_the_current_word() {
    let (writer, request) = start(0x00FF_8000, 0x50FA_50FA);
    assert_eq!(writer.phase, UicrPhase::AwaitCurrent);
    assert_eq!(request, CoreRequest::ReadWord { addr: 0x00FF_8000 });
}

#[test]
fn incompatible_write_rejected_without_any_write() {
    // 0 & 0x50FA_50FA != 0x50FA_50FA and the word is not erased: the write
    // would need to set bits, which only a mass erase can do.
    let (requests, ended) = drive(0x00FF_8000, 0x50FA_50FA, &[Reply::Value(0)]);
    assert_eq!(ended, UicrStep::Failed(UicrFailure::NeedsMassErase));
    assert_eq!(requests, vec![CoreRequest::ReadWord { addr: 0x00FF_8000 }]);
    assert!(requests
        .iter()
        .all(|r| !matches!(r, CoreRequest::WriteWord { .. })));
}

#[test]
fn erased_word_runs_the_six_step_protocol_in_order() {
    let script = [
        Reply::Value(0xFFFF_FFFF), // current value: erased
        Reply::Ack,                // CONFIG = 1 acknowledged
        Reply::Value(1),           // READY
        Reply::Ack,                // word write acknowledged
        Reply::Value(1),           // READY
        Reply::Ack,                // CONFIG = 0 acknowledged
        Reply::Value(1),           // READY
    ];
    let (requests, ended) = drive(0x00FF_8000, 0x50FA_50FA, &script);
    assert_eq!(ended, UicrStep::Done);
    assert_eq!(
        requests,
        vec![
            CoreRequest::ReadWord { addr: 0x00FF_8000 },
            CoreRequest::WriteWord { addr: 0x5003_9504, value: 1 },
            CoreRequest::ReadWord { addr: 0x5003_9400 },
            CoreRequest::WriteWord { addr: 0x00FF_8000, value: 0x50FA_50FA },
            CoreRequest::ReadWord { addr: 0x5003_9400 },
            CoreRequest::WriteWord { addr: 0x5003_9504, value: 0 },
            CoreRequest::ReadWord { addr: 0x5003_9400 },
        ]
    );
}

#[test]
fn subset_value_is_accepted() {
    // Every bit of the desired value is already set in the current one.
    let (writer, _) = start(0x00FF_802C, 0x5050_5050);
    let step = writer.step(Reply::Value(0xF0F0_F0F0));
    match step {
        UicrStep::Next(next, request) => {
            assert_eq!(next.phase, UicrPhase::AwaitEnable);
            assert_eq!(
                request,
                CoreRequest::WriteWord { addr: 0x5003_9504, value: 1 }
            );
        }
        other => panic!("expected the protocol to continue, got {:?}", other),
    }
}

#[test]
fn busy_controller_is_polled_until_ready() {
    let writer = UicrWriter {
        addr: 0x00FF_8000,
        value: 0x50FA_50FA,
        phase: UicrPhase::AwaitReadyAfterEnable,
    };
    // Bit 0 clear: not ready, sleep one millisecond and poll again.
    assert_eq!(
        writer.step(Reply::Value(0)),
        UicrStep::Next(
            UicrWriter { phase: UicrPhase::AwaitPauseAfterEnable, ..writer },
            CoreRequest::Sleep { ms: 1 }
        )
    );
    // Only bit 0 counts: an even value is still busy.
    assert_eq!(
        writer.step(Reply::Value(0xFFFF_FFFE)),
        UicrStep::Next(
            UicrWriter { phase: UicrPhase::AwaitPauseAfterEnable, ..writer },
            CoreRequest::Sleep { ms: 1 }
        )
    );
    // An odd value is ready: the word write follows.
    assert_eq!(
        writer.step(Reply::Value(3)),
        UicrStep::Next(
            UicrWriter { phase: UicrPhase::AwaitValueWritten, ..writer },
            CoreRequest::WriteWord { addr: 0x00FF_8000, value: 0x50FA_50FA }
        )
    );
    let pause = UicrWriter { phase: UicrPhase::AwaitPauseAfterEnable, ..writer };
    assert_eq!(
        pause.step(Reply::Ack),
        UicrStep::Next(
            UicrWriter { phase: UicrPhase::AwaitReadyAfterEnable, ..writer },
            CoreRequest::ReadWord { addr: 0x5003_9400 }
        )
    );
}

#[test]
fn transport_fault_fails_the_write() {
    let (writer, _) = start(0x00FF_8000, 0);
    assert_eq!(
        writer.step(Reply::Fault),
        UicrStep::Failed(UicrFailure::Transport)
    );
}

#[test]
fn write_allowed_matches_the_narrowing_rule() {
    assert!(write_allowed(0xFFFF_FFFF, 0x50FA_50FA));
    assert!(write_allowed(0xFFFF_FFFF, 0));
    assert!(write_allowed(0x50FA_50FA, 0x50FA_50FA));
    assert!(write_allowed(0xF0F0_F0F0, 0x5050_5050));
    assert!(!write_allowed(0, 1));
    assert!(!write_allowed(0x50FA_50FA, 0xFFFF_FFFF));
}

#[test]
fn both_protection_words_take_the_hw_disable_value() {
    let script = [
        Reply::Value(0xFFFF_FFFF),
        Reply::Ack,
        Reply::Value(1),
        Reply::Ack,
        Reply::Value(1),
        Reply::Ack,
        Reply::Value(1),
    ];
    for addr in [UICR_APPROTECT_ADDR, UICR_SECUREAPPROTECT_ADDR] {
        let (requests, ended) = drive(addr, APPROTECT_HW_DISABLE, &script);
        assert_eq!(ended, UicrStep::Done);
        assert!(requests.contains(&CoreRequest::WriteWord {
            addr,
            value: 0x50FA_50FA
        }));
    }
}
