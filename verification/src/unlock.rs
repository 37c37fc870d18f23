//! The CTRL-AP unlock state machine.
//!
//! The machine drives the erase-all / reset / verify sequence that brings a
//! debug-locked device back into a debuggable state. It owns every decision
//! of the sequence — what to read or write next, when a poll has timed out,
//! when the run has succeeded or failed — while the front end merely
//! performs the requested register accesses and sleeps and reports back.
//!
//! A run starts with [`start`], which yields the first state and the first
//! request. Each call of [`UnlockState::step`] consumes the reply to the
//! pending request (plus the current time in milliseconds) and either ends
//! the run or yields the next state and request.

use vstd::prelude::*;

use crate::errors::UnlockFailure;
use crate::nrf91::{
    CSW_ADDR, CSW_POLL_INTERVAL_MS, CTRL_AP_INDEX, ERASEALLSTATUS_ADDR, ERASEALL_ADDR,
    ERASE_POLL_INTERVAL_MS, ERASE_TIMEOUT_MS, IDR_ADDR, MEM_AP_INDEX, POST_RESET_SETTLE_MS,
    PRE_RESET_SETTLE_MS, RESET_ADDR, UNLOCK_VERIFY_WINDOW_MS,
};
use crate::nrf91::{dbg_enabled, spec_dbg_enabled};
use crate::timing::{
    elapsed_at_least, elapsed_more_than, spec_elapsed_at_least, spec_elapsed_more_than,
};
use crate::transport::{is_prefix_of, ApRequest, Reply, TimedReply};

verus! {

/// Where the unlock sequence stands: each state awaits the reply to the
/// one request named by [`UnlockState::spec_pending`].
#[derive(Clone, Copy, Debug, PartialEq, Eq, Structural)]
pub enum UnlockState {
    /// Awaiting the initial CSW read that decides whether an erase is needed.
    AwaitInitialCsw { force: bool },
    /// Awaiting the CTRL-AP IDR sanity read.
    AwaitIdr,
    /// Awaiting the acknowledgement of the ERASEALL command write.
    AwaitEraseStarted,
    /// Awaiting an ERASEALLSTATUS poll; the erase began at `started_ms`.
    AwaitEraseStatus { started_ms: u64 },
    /// Awaiting the sleep between two ERASEALLSTATUS polls.
    AwaitErasePause { started_ms: u64 },
    /// Awaiting the settle sleep before the soft reset.
    AwaitPreResetPause,
    /// Awaiting the acknowledgement of the reset-assert write.
    AwaitResetAssert,
    /// Awaiting the acknowledgement of the reset-deassert write.
    AwaitResetDeassert,
    /// Awaiting the settle sleep after the soft reset.
    AwaitPostResetPause,
    /// Awaiting a post-reset CSW poll; verification began at `reset_ms`.
    AwaitVerifyCsw { reset_ms: u64 },
    /// Awaiting the sleep between two post-reset CSW polls.
    AwaitVerifyPause { reset_ms: u64 },
}

/// How an unlock run ends successfully.
#[derive(Clone, Copy, Debug, PartialEq, Eq, Structural)]
pub enum UnlockSuccess {
    /// DbgStatus was already 1 and no erase was forced; the device was left
    /// untouched.
    AlreadyUnlocked,
    /// The erase/reset sequence ran and DbgStatus rose to 1 afterwards.
    UnlockedAfterErase,
}

/// The outcome of one step of the machine.
#[derive(Clone, Copy, Debug, PartialEq, Eq, Structural)]
pub enum UnlockStep {
    /// The sequence continues: the new state, and the request to perform.
    Next(UnlockState, ApRequest),
    /// The device is debuggable; the run is over.
    Done(UnlockSuccess),
    /// The run failed; nothing further may be issued.
    Failed(UnlockFailure),
}

impl UnlockState {
    /// The request whose reply this state awaits.
    pub open spec fn spec_pending(self) -> ApRequest {
        match self {
            UnlockState::AwaitInitialCsw { .. } => ApRequest::Read {
                ap: MEM_AP_INDEX,
                addr: CSW_ADDR,
            },
            UnlockState::AwaitIdr => ApRequest::Read { ap: CTRL_AP_INDEX, addr: IDR_ADDR },
            UnlockState::AwaitEraseStarted => ApRequest::Write {
                ap: CTRL_AP_INDEX,
                addr: ERASEALL_ADDR,
                value: 1,
            },
            UnlockState::AwaitEraseStatus { .. } => ApRequest::Read {
                ap: CTRL_AP_INDEX,
                addr: ERASEALLSTATUS_ADDR,
            },
            UnlockState::AwaitErasePause { .. } => ApRequest::Sleep {
                ms: ERASE_POLL_INTERVAL_MS,
            },
            UnlockState::AwaitPreResetPause => ApRequest::Sleep { ms: PRE_RESET_SETTLE_MS },
            UnlockState::AwaitResetAssert => ApRequest::Write {
                ap: CTRL_AP_INDEX,
                addr: RESET_ADDR,
                value: 1,
            },
            UnlockState::AwaitResetDeassert => ApRequest::Write {
                ap: CTRL_AP_INDEX,
                addr: RESET_ADDR,
                value: 0,
            },
            UnlockState::AwaitPostResetPause => ApRequest::Sleep { ms: POST_RESET_SETTLE_MS },
            UnlockState::AwaitVerifyCsw { .. } => ApRequest::Read {
                ap: MEM_AP_INDEX,
                addr: CSW_ADDR,
            },
            UnlockState::AwaitVerifyPause { .. } => ApRequest::Sleep {
                ms: CSW_POLL_INTERVAL_MS,
            },
        }
    }

    /// What one step of the machine decides, as a function of the state,
    /// the reply to the pending request, and the current time.
    ///
    /// A transport fault at any register access — the IDR read included —
    /// is fatal at once and propagates as a transport failure. A reply
    /// that does not answer the pending request counts the same way; the
    /// front end never produces one.
    pub open spec fn spec_step(self, reply: Reply, now_ms: u64) -> UnlockStep {
        match (self, reply) {
            (UnlockState::AwaitInitialCsw { force }, Reply::Value(csw)) => {
                if spec_dbg_enabled(csw) && !force {
                    UnlockStep::Done(UnlockSuccess::AlreadyUnlocked)
                } else {
                    let next = UnlockState::AwaitIdr;
                    UnlockStep::Next(next, next.spec_pending())
                }
            },
            (UnlockState::AwaitIdr, Reply::Value(idr)) => {
                if idr == 0 {
                    UnlockStep::Failed(UnlockFailure::InvalidCtrlApIdr)
                } else {
                    let next = UnlockState::AwaitEraseStarted;
                    UnlockStep::Next(next, next.spec_pending())
                }
            },
            (UnlockState::AwaitEraseStarted, Reply::Ack) => {
                let next = UnlockState::AwaitEraseStatus { started_ms: now_ms };
                UnlockStep::Next(next, next.spec_pending())
            },
            (UnlockState::AwaitEraseStatus { started_ms }, Reply::Value(status)) => {
                if status == 0 || spec_elapsed_at_least(started_ms, now_ms, ERASE_TIMEOUT_MS) {
                    // A status that never clears is logged and tolerated:
                    // the sequence proceeds to the reset either way.
                    let next = UnlockState::AwaitPreResetPause;
                    UnlockStep::Next(next, next.spec_pending())
                } else {
                    let next = UnlockState::AwaitErasePause { started_ms };
                    UnlockStep::Next(next, next.spec_pending())
                }
            },
            (UnlockState::AwaitErasePause { started_ms }, Reply::Ack) => {
                let next = UnlockState::AwaitEraseStatus { started_ms };
                UnlockStep::Next(next, next.spec_pending())
            },
            (UnlockState::AwaitPreResetPause, Reply::Ack) => {
                let next = UnlockState::AwaitResetAssert;
                UnlockStep::Next(next, next.spec_pending())
            },
            (UnlockState::AwaitResetAssert, Reply::Ack) => {
                let next = UnlockState::AwaitResetDeassert;
                UnlockStep::Next(next, next.spec_pending())
            },
            (UnlockState::AwaitResetDeassert, Reply::Ack) => {
                let next = UnlockState::AwaitPostResetPause;
                UnlockStep::Next(next, next.spec_pending())
            },
            (UnlockState::AwaitPostResetPause, Reply::Ack) => {
                let next = UnlockState::AwaitVerifyCsw { reset_ms: now_ms };
                UnlockStep::Next(next, next.spec_pending())
            },
            (UnlockState::AwaitVerifyCsw { reset_ms }, Reply::Value(csw)) => {
                if spec_dbg_enabled(csw) {
                    UnlockStep::Done(UnlockSuccess::UnlockedAfterErase)
                } else if spec_elapsed_more_than(reset_ms, now_ms, UNLOCK_VERIFY_WINDOW_MS) {
                    UnlockStep::Failed(UnlockFailure::DebugPortDisabled)
                } else {
                    let next = UnlockState::AwaitVerifyPause { reset_ms };
                    UnlockStep::Next(next, next.spec_pending())
                }
            },
            (UnlockState::AwaitVerifyPause { reset_ms }, Reply::Ack) => {
                let next = UnlockState::AwaitVerifyCsw { reset_ms };
                UnlockStep::Next(next, next.spec_pending())
            },
            _ => UnlockStep::Failed(UnlockFailure::Transport),
        }
    }

    /// Consumes the reply to the pending request and decides the next move.
    pub fn step(self, reply: Reply, now_ms: u64) -> (r: UnlockStep)
        ensures
            r == self.spec_step(reply, now_ms),
    {
        match (self, reply) {
            (UnlockState::AwaitInitialCsw { force }, Reply::Value(csw)) => {
                if dbg_enabled(csw) && !force {
                    UnlockStep::Done(UnlockSuccess::AlreadyUnlocked)
                } else {
                    UnlockStep::Next(
                        UnlockState::AwaitIdr,
                        ApRequest::Read { ap: CTRL_AP_INDEX, addr: IDR_ADDR },
                    )
                }
            },
            (UnlockState::AwaitIdr, Reply::Value(idr)) => {
                if idr == 0 {
                    UnlockStep::Failed(UnlockFailure::InvalidCtrlApIdr)
                } else {
                    UnlockStep::Next(
                        UnlockState::AwaitEraseStarted,
                        ApRequest::Write { ap: CTRL_AP_INDEX, addr: ERASEALL_ADDR, value: 1 },
                    )
                }
            },
            (UnlockState::AwaitEraseStarted, Reply::Ack) => UnlockStep::Next(
                UnlockState::AwaitEraseStatus { started_ms: now_ms },
                ApRequest::Read { ap: CTRL_AP_INDEX, addr: ERASEALLSTATUS_ADDR },
            ),
            (UnlockState::AwaitEraseStatus { started_ms }, Reply::Value(status)) => {
                if status == 0 || elapsed_at_least(started_ms, now_ms, ERASE_TIMEOUT_MS) {
                    UnlockStep::Next(
                        UnlockState::AwaitPreResetPause,
                        ApRequest::Sleep { ms: PRE_RESET_SETTLE_MS },
                    )
                } else {
                    UnlockStep::Next(
                        UnlockState::AwaitErasePause { started_ms },
                        ApRequest::Sleep { ms: ERASE_POLL_INTERVAL_MS },
                    )
                }
            },
            (UnlockState::AwaitErasePause { started_ms }, Reply::Ack) => UnlockStep::Next(
                UnlockState::AwaitEraseStatus { started_ms },
                ApRequest::Read { ap: CTRL_AP_INDEX, addr: ERASEALLSTATUS_ADDR },
            ),
            (UnlockState::AwaitPreResetPause, Reply::Ack) => UnlockStep::Next(
                UnlockState::AwaitResetAssert,
                ApRequest::Write { ap: CTRL_AP_INDEX, addr: RESET_ADDR, value: 1 },
            ),
            (UnlockState::AwaitResetAssert, Reply::Ack) => UnlockStep::Next(
                UnlockState::AwaitResetDeassert,
                ApRequest::Write { ap: CTRL_AP_INDEX, addr: RESET_ADDR, value: 0 },
            ),
            (UnlockState::AwaitResetDeassert, Reply::Ack) => UnlockStep::Next(
                UnlockState::AwaitPostResetPause,
                ApRequest::Sleep { ms: POST_RESET_SETTLE_MS },
            ),
            (UnlockState::AwaitPostResetPause, Reply::Ack) => UnlockStep::Next(
                UnlockState::AwaitVerifyCsw { reset_ms: now_ms },
                ApRequest::Read { ap: MEM_AP_INDEX, addr: CSW_ADDR },
            ),
            (UnlockState::AwaitVerifyCsw { reset_ms }, Reply::Value(csw)) => {
                if dbg_enabled(csw) {
                    UnlockStep::Done(UnlockSuccess::UnlockedAfterErase)
                } else if elapsed_more_than(reset_ms, now_ms, UNLOCK_VERIFY_WINDOW_MS) {
                    UnlockStep::Failed(UnlockFailure::DebugPortDisabled)
                } else {
                    UnlockStep::Next(
                        UnlockState::AwaitVerifyPause { reset_ms },
                        ApRequest::Sleep { ms: CSW_POLL_INTERVAL_MS },
                    )
                }
            },
            (UnlockState::AwaitVerifyPause { reset_ms }, Reply::Ack) => UnlockStep::Next(
                UnlockState::AwaitVerifyCsw { reset_ms },
                ApRequest::Read { ap: MEM_AP_INDEX, addr: CSW_ADDR },
            ),
            _ => UnlockStep::Failed(UnlockFailure::Transport),
        }
    }
}

/// Begins an unlock run: the initial state, and the first request (the CSW
/// read that decides whether an erase is needed at all).
pub fn start(force: bool) -> (r: (UnlockState, ApRequest))
    ensures
        r.0 == (UnlockState::AwaitInitialCsw { force }),
        r.1 == r.0.spec_pending(),
        !r.1.is_write(),
{
    (
        UnlockState::AwaitInitialCsw { force },
        ApRequest::Read { ap: MEM_AP_INDEX, addr: CSW_ADDR },
    )
}

/// Where a run that starts in `s` and consumes the replies `rs` stands:
/// still pending, done, or failed. Replies beyond the end of the run are
/// ignored.
pub open spec fn spec_run(s: UnlockState, rs: Seq<TimedReply>) -> UnlockStep
    decreases rs.len(),
{
    if rs.len() == 0 {
        UnlockStep::Next(s, s.spec_pending())
    } else {
        match s.spec_step(rs[0].reply, rs[0].now_ms) {
            UnlockStep::Next(s2, _) => spec_run(s2, rs.drop_first()),
            ended => ended,
        }
    }
}

/// Every request the machine issues while consuming the replies `rs` from
/// state `s` (the request pending in `s` itself is not repeated here).
pub open spec fn spec_requests(s: UnlockState, rs: Seq<TimedReply>) -> Seq<ApRequest>
    decreases rs.len(),
{
    if rs.len() == 0 {
        Seq::empty()
    } else {
        match s.spec_step(rs[0].reply, rs[0].now_ms) {
            UnlockStep::Next(s2, req) => seq![req] + spec_requests(s2, rs.drop_first()),
            _ => Seq::empty(),
        }
    }
}

/// The register writes the machine may still issue from a given state, in
/// the order the protocol demands them.
pub open spec fn spec_remaining_writes(s: UnlockState) -> Seq<ApRequest> {
    match s {
        UnlockState::AwaitInitialCsw { .. } | UnlockState::AwaitIdr => seq![
            ApRequest::Write { ap: CTRL_AP_INDEX, addr: ERASEALL_ADDR, value: 1 },
            ApRequest::Write { ap: CTRL_AP_INDEX, addr: RESET_ADDR, value: 1 },
            ApRequest::Write { ap: CTRL_AP_INDEX, addr: RESET_ADDR, value: 0 },
        ],
        UnlockState::AwaitEraseStarted
        | UnlockState::AwaitEraseStatus { .. }
        | UnlockState::AwaitErasePause { .. }
        | UnlockState::AwaitPreResetPause => seq![
            ApRequest::Write { ap: CTRL_AP_INDEX, addr: RESET_ADDR, value: 1 },
            ApRequest::Write { ap: CTRL_AP_INDEX, addr: RESET_ADDR, value: 0 },
        ],
        UnlockState::AwaitResetAssert => seq![
            ApRequest::Write { ap: CTRL_AP_INDEX, addr: RESET_ADDR, value: 0 },
        ],
        UnlockState::AwaitResetDeassert
        | UnlockState::AwaitPostResetPause
        | UnlockState::AwaitVerifyCsw { .. }
        | UnlockState::AwaitVerifyPause { .. } => Seq::empty(),
    }
}

/// The write requests among `rs`' requests, in order.
pub open spec fn spec_writes(s: UnlockState, rs: Seq<TimedReply>) -> Seq<ApRequest>
    decreases rs.len(),
{
    if rs.len() == 0 {
        Seq::empty()
    } else {
        match s.spec_step(rs[0].reply, rs[0].now_ms) {
            UnlockStep::Next(s2, req) => if req.is_write() {
                seq![req] + spec_writes(s2, rs.drop_first())
            } else {
                spec_writes(s2, rs.drop_first())
            },
            _ => Seq::empty(),
        }
    }
}

/// A run that ends unlocked-after-erase issued every protocol write still
/// owed from its starting state: from the initial CSW check onward,
/// exactly ERASEALL = 1, then RESET = 1, then RESET = 0, in that order —
/// whatever the device reported along the way.
pub proof fn lemma_erase_unlock_wrote_exactly_the_protocol(s: UnlockState, rs: Seq<TimedReply>)
    requires
        spec_run(s, rs) == UnlockStep::Done(UnlockSuccess::UnlockedAfterErase),
    ensures
        spec_writes(s, rs) == spec_remaining_writes(s),
    decreases rs.len(),
{
    if rs.len() == 0 {
    } else {
        match s.spec_step(rs[0].reply, rs[0].now_ms) {
            UnlockStep::Next(s2, req) => {
                lemma_erase_unlock_wrote_exactly_the_protocol(s2, rs.drop_first());
                if req.is_write() {
                    assert(spec_remaining_writes(s) == seq![req] + spec_remaining_writes(s2));
                } else {
                    assert(spec_remaining_writes(s2) == spec_remaining_writes(s));
                }
            },
            UnlockStep::Done(_) => {
                assert(s is AwaitVerifyCsw);
            },
            UnlockStep::Failed(_) => {},
        }
    }
}

/// Whatever the device reports and however the polls fall, the register
/// writes a run issues form an initial segment of the protocol order:
/// ERASEALL = 1, then RESET = 1, then RESET = 0 — never out of order,
/// never repeated, never any other write, and none at all before the
/// CTRL-AP's identity has been confirmed.
pub proof fn lemma_writes_in_protocol_order(s: UnlockState, rs: Seq<TimedReply>)
    ensures
        is_prefix_of(spec_writes(s, rs), spec_remaining_writes(s)),
    decreases rs.len(),
{
    if rs.len() == 0 {
    } else {
        match s.spec_step(rs[0].reply, rs[0].now_ms) {
            UnlockStep::Next(s2, req) => {
                lemma_writes_in_protocol_order(s2, rs.drop_first());
                if req.is_write() {
                    assert(spec_remaining_writes(s) == seq![req] + spec_remaining_writes(s2));
                } else {
                    assert(spec_remaining_writes(s2) == spec_remaining_writes(s));
                }
            },
            _ => {},
        }
    }
}

/// The request a step hands out is always the one its successor state
/// awaits: the machine never issues a request it does not then consume the
/// reply of.
pub proof fn lemma_step_issues_pending(s: UnlockState, reply: Reply, now_ms: u64)
    ensures
        s.spec_step(reply, now_ms) matches UnlockStep::Next(s2, req) ==> req == s2.spec_pending(),
{
}

/// An already-unlocked device is left untouched: if the very first CSW read
/// shows DbgStatus = 1 and no erase is forced, the run succeeds at once,
/// and no request of the whole run — the initial CSW read included — writes
/// a register. No erase and no reset reaches the device.
pub proof fn lemma_already_unlocked_short_circuit(csw: u32, rs: Seq<TimedReply>)
    requires
        rs.len() >= 1,
        rs[0].reply == Reply::Value(csw),
        spec_dbg_enabled(csw),
    ensures
        spec_run(UnlockState::AwaitInitialCsw { force: false }, rs) == UnlockStep::Done(
            UnlockSuccess::AlreadyUnlocked,
        ),
        spec_requests(UnlockState::AwaitInitialCsw { force: false }, rs) == Seq::<
            ApRequest,
        >::empty(),
        !(UnlockState::AwaitInitialCsw { force: false }).spec_pending().is_write(),
{
    assert(spec_requests(UnlockState::AwaitInitialCsw { force: false }, rs) =~= Seq::<
        ApRequest,
    >::empty());
}

/// A zero CTRL-AP IDR aborts the run before it can do any harm: the run
/// fails with `InvalidCtrlApIdr`, and the only request issued after the
/// initial CSW read is the IDR read itself — no ERASEALL and no RESET
/// write is ever issued.
pub proof fn lemma_zero_idr_fails_without_writes(force: bool, csw: u32, rs: Seq<TimedReply>)
    requires
        rs.len() >= 2,
        rs[0].reply == Reply::Value(csw),
        !(spec_dbg_enabled(csw) && !force),
        rs[1].reply == Reply::Value(0),
    ensures
        spec_run(UnlockState::AwaitInitialCsw { force }, rs) == UnlockStep::Failed(
            UnlockFailure::InvalidCtrlApIdr,
        ),
        spec_requests(UnlockState::AwaitInitialCsw { force }, rs) =~= seq![
            ApRequest::Read { ap: CTRL_AP_INDEX, addr: IDR_ADDR },
        ],
{
    let s0 = UnlockState::AwaitInitialCsw { force };
    let rest = rs.drop_first();
    assert(rest[0] == rs[1]);
    assert(spec_run(s0, rs) == spec_run(UnlockState::AwaitIdr, rest));
    assert(spec_requests(UnlockState::AwaitIdr, rest) == Seq::<ApRequest>::empty());
    assert(spec_requests(s0, rs) == seq![ApRequest::Read { ap: CTRL_AP_INDEX, addr: IDR_ADDR }]
        + Seq::<ApRequest>::empty());
}

/// A locked device that erases promptly and comes back debuggable is taken
/// through the whole sequence in the protocol order — IDR check, ERASEALL,
/// status poll, settle, reset pulse, settle, CSW verify — whatever the
/// clock reads at each step, and the run ends unlocked.
pub proof fn lemma_locked_device_full_sequence(
    force: bool,
    csw0: u32,
    idr: u32,
    csw1: u32,
    rs: Seq<TimedReply>,
)
    requires
        rs.len() == 9,
        rs[0].reply == Reply::Value(csw0),
        !(spec_dbg_enabled(csw0) && !force),
        rs[1].reply == Reply::Value(idr),
        idr != 0,
        rs[2].reply == Reply::Ack,
        rs[3].reply == Reply::Value(0),
        rs[4].reply == Reply::Ack,
        rs[5].reply == Reply::Ack,
        rs[6].reply == Reply::Ack,
        rs[7].reply == Reply::Ack,
        rs[8].reply == Reply::Value(csw1),
        spec_dbg_enabled(csw1),
    ensures
        spec_run(UnlockState::AwaitInitialCsw { force }, rs) == UnlockStep::Done(
            UnlockSuccess::UnlockedAfterErase,
        ),
        spec_requests(UnlockState::AwaitInitialCsw { force }, rs) =~= seq![
            ApRequest::Read { ap: CTRL_AP_INDEX, addr: IDR_ADDR },
            ApRequest::Write { ap: CTRL_AP_INDEX, addr: ERASEALL_ADDR, value: 1 },
            ApRequest::Read { ap: CTRL_AP_INDEX, addr: ERASEALLSTATUS_ADDR },
            ApRequest::Sleep { ms: PRE_RESET_SETTLE_MS },
            ApRequest::Write { ap: CTRL_AP_INDEX, addr: RESET_ADDR, value: 1 },
            ApRequest::Write { ap: CTRL_AP_INDEX, addr: RESET_ADDR, value: 0 },
            ApRequest::Sleep { ms: POST_RESET_SETTLE_MS },
            ApRequest::Read { ap: MEM_AP_INDEX, addr: CSW_ADDR },
        ],
{
    let s0 = UnlockState::AwaitInitialCsw { force };
    let s1 = UnlockState::AwaitIdr;
    let s2 = UnlockState::AwaitEraseStarted;
    let s3 = UnlockState::AwaitEraseStatus { started_ms: rs[2].now_ms };
    let s4 = UnlockState::AwaitPreResetPause;
    let s5 = UnlockState::AwaitResetAssert;
    let s6 = UnlockState::AwaitResetDeassert;
    let s7 = UnlockState::AwaitPostResetPause;
    let s8 = UnlockState::AwaitVerifyCsw { reset_ms: rs[7].now_ms };
    let r1 = rs.drop_first();
    let r2 = r1.drop_first();
    let r3 = r2.drop_first();
    let r4 = r3.drop_first();
    let r5 = r4.drop_first();
    let r6 = r5.drop_first();
    let r7 = r6.drop_first();
    let r8 = r7.drop_first();
    let r9 = r8.drop_first();
    assert(r9.len() == 0);
    assert(r1[0] == rs[1] && r2[0] == rs[2] && r3[0] == rs[3] && r4[0] == rs[4] && r5[0] == rs[5]
        && r6[0] == rs[6] && r7[0] == rs[7] && r8[0] == rs[8]);
    assert(spec_run(s0, rs) == spec_run(s1, r1));
    assert(spec_run(s1, r1) == spec_run(s2, r2));
    assert(spec_run(s2, r2) == spec_run(s3, r3));
    assert(spec_run(s3, r3) == spec_run(s4, r4));
    assert(spec_run(s4, r4) == spec_run(s5, r5));
    assert(spec_run(s5, r5) == spec_run(s6, r6));
    assert(spec_run(s6, r6) == spec_run(s7, r7));
    assert(spec_run(s7, r7) == spec_run(s8, r8));
    assert(spec_run(s8, r8) == UnlockStep::Done(UnlockSuccess::UnlockedAfterErase));
    assert(spec_requests(s8, r8) == Seq::<ApRequest>::empty());
    assert(spec_requests(s7, r7) == seq![s8.spec_pending()] + spec_requests(s8, r8));
    assert(spec_requests(s6, r6) == seq![s7.spec_pending()] + spec_requests(s7, r7));
    assert(spec_requests(s5, r5) == seq![s6.spec_pending()] + spec_requests(s6, r6));
    assert(spec_requests(s4, r4) == seq![s5.spec_pending()] + spec_requests(s5, r5));
    assert(spec_requests(s3, r3) == seq![s4.spec_pending()] + spec_requests(s4, r4));
    assert(spec_requests(s2, r2) == seq![s3.spec_pending()] + spec_requests(s3, r3));
    assert(spec_requests(s1, r1) == seq![s2.spec_pending()] + spec_requests(s2, r2));
    assert(spec_requests(s0, rs) == seq![s1.spec_pending()] + spec_requests(s1, r1));
}

/// A reply that reports the device as debuggable: a register read whose
/// value carries DbgStatus = 1.
pub open spec fn reply_shows_unlocked(r: Reply) -> bool {
    r matches Reply::Value(csw) && spec_dbg_enabled(csw)
}

/// A run can only end in `UnlockedAfterErase` on the strength of the
/// device itself: some consumed reply was a register read showing
/// DbgStatus = 1. Success is never declared on a locked observation.
pub proof fn lemma_unlock_success_saw_dbg_enabled(s: UnlockState, rs: Seq<TimedReply>)
    requires
        spec_run(s, rs) == UnlockStep::Done(UnlockSuccess::UnlockedAfterErase),
    ensures
        exists|i: int| 0 <= i < rs.len() && #[trigger] reply_shows_unlocked(rs[i].reply),
    decreases rs.len(),
{
    match s.spec_step(rs[0].reply, rs[0].now_ms) {
        UnlockStep::Next(s2, _) => {
            lemma_unlock_success_saw_dbg_enabled(s2, rs.drop_first());
            let j = choose|j: int|
                0 <= j < rs.drop_first().len() && #[trigger] reply_shows_unlocked(
                    rs.drop_first()[j].reply,
                );
            assert(rs[j + 1] == rs.drop_first()[j]);
            assert(reply_shows_unlocked(rs[j + 1].reply));
        },
        _ => {
            assert(reply_shows_unlocked(rs[0].reply));
        },
    }
}

/// The post-reset verification leaves the loop exactly as the protocol
/// says: a CSW poll succeeds precisely on DbgStatus = 1; a locked
/// observation strictly later than the verification window fails the run;
/// an earlier locked observation keeps polling.
pub proof fn lemma_verify_window(reset_ms: u64, csw: u32, now_ms: u64)
    ensures
        (UnlockState::AwaitVerifyCsw { reset_ms }).spec_step(Reply::Value(csw), now_ms)
            == UnlockStep::Done(UnlockSuccess::UnlockedAfterErase) <==> spec_dbg_enabled(csw),
        (UnlockState::AwaitVerifyCsw { reset_ms }).spec_step(Reply::Value(csw), now_ms)
            == UnlockStep::Failed(UnlockFailure::DebugPortDisabled) <==> (!spec_dbg_enabled(csw)
            && now_ms - reset_ms > UNLOCK_VERIFY_WINDOW_MS),
        (UnlockState::AwaitVerifyCsw { reset_ms }).spec_step(Reply::Value(csw), now_ms)
            matches UnlockStep::Next(s2, req) ==> (!spec_dbg_enabled(csw) && now_ms - reset_ms
            <= UNLOCK_VERIFY_WINDOW_MS && s2 == (UnlockState::AwaitVerifyPause { reset_ms })
            && req == (ApRequest::Sleep { ms: CSW_POLL_INTERVAL_MS })),
{
}

} // verus!
