//! The protection-word write state machine.
//!
//! UICR-style words live in NOR-like storage: a write can only clear bits,
//! never set them, unless the word is in its erased state. The machine
//! first reads the current word and rejects a write that would need a mass
//! erase; otherwise it runs the strict six-step NVMC protocol — enable
//! write mode, poll READY, write the word, poll READY, disable write mode,
//! poll READY — in exactly that order. The READY polls are unbounded by
//! design: a controller that never becomes ready stalls the run rather
//! than failing it.

use vstd::prelude::*;

use crate::errors::UicrFailure;
use crate::nrf91::{
    NVMC_CONFIG_ADDR, NVMC_READY_ADDR, NVMC_READY_POLL_INTERVAL_MS, UICR_ERASED_WORD,
};
use crate::transport::{is_prefix_of, CoreRequest, Reply};

verus! {

/// Which reply the writer is waiting for.
#[derive(Clone, Copy, Debug, PartialEq, Eq, Structural)]
pub enum UicrPhase {
    /// Awaiting the read of the word's current value.
    AwaitCurrent,
    /// Awaiting the acknowledgement of CONFIG = 1 (write enable).
    AwaitEnable,
    /// Awaiting a READY poll after enabling write mode.
    AwaitReadyAfterEnable,
    /// Awaiting the sleep between two READY polls after enabling.
    AwaitPauseAfterEnable,
    /// Awaiting the acknowledgement of the word write itself.
    AwaitValueWritten,
    /// Awaiting a READY poll after the word write.
    AwaitReadyAfterWrite,
    /// Awaiting the sleep between two READY polls after the word write.
    AwaitPauseAfterWrite,
    /// Awaiting the acknowledgement of CONFIG = 0 (write disable).
    AwaitDisable,
    /// Awaiting a READY poll after disabling write mode.
    AwaitReadyAfterDisable,
    /// Awaiting the sleep between two READY polls after disabling.
    AwaitPauseAfterDisable,
}

/// A pending write of `value` into the protection word at `addr`.
#[derive(Clone, Copy, Debug, PartialEq, Eq, Structural)]
pub struct UicrWriter {
    /// Address of the protection word being written.
    pub addr: u64,
    /// The value the word is to hold.
    pub value: u32,
    /// Where the protocol stands.
    pub phase: UicrPhase,
}

/// The outcome of one step of the writer.
#[derive(Clone, Copy, Debug, PartialEq, Eq, Structural)]
pub enum UicrStep {
    /// The protocol continues: the new state, and the request to perform.
    Next(UicrWriter, CoreRequest),
    /// The word was written and write mode is off again.
    Done,
    /// The write was rejected or the transport failed; nothing was issued
    /// beyond what the phase had already asked for.
    Failed(UicrFailure),
}

/// Whether `value` can be flashed over `current` without a mass erase:
/// either every bit of `value` is already clearable (`value`'s bits are a
/// subset of `current`'s), or the word is in its erased state.
pub open spec fn spec_write_allowed(current: u32, value: u32) -> bool {
    current & value == value || current == UICR_ERASED_WORD
}

/// Executable form of [`spec_write_allowed`].
pub fn write_allowed(current: u32, value: u32) -> (b: bool)
    ensures
        b == spec_write_allowed(current, value),
{
    current & value == value || current == UICR_ERASED_WORD
}

impl UicrWriter {
    /// The request whose reply this phase awaits.
    pub open spec fn spec_pending(self) -> CoreRequest {
        match self.phase {
            UicrPhase::AwaitCurrent => CoreRequest::ReadWord { addr: self.addr },
            UicrPhase::AwaitEnable => CoreRequest::WriteWord { addr: NVMC_CONFIG_ADDR, value: 1 },
            UicrPhase::AwaitReadyAfterEnable => CoreRequest::ReadWord { addr: NVMC_READY_ADDR },
            UicrPhase::AwaitPauseAfterEnable => CoreRequest::Sleep {
                ms: NVMC_READY_POLL_INTERVAL_MS,
            },
            UicrPhase::AwaitValueWritten => CoreRequest::WriteWord {
                addr: self.addr,
                value: self.value,
            },
            UicrPhase::AwaitReadyAfterWrite => CoreRequest::ReadWord { addr: NVMC_READY_ADDR },
            UicrPhase::AwaitPauseAfterWrite => CoreRequest::Sleep {
                ms: NVMC_READY_POLL_INTERVAL_MS,
            },
            UicrPhase::AwaitDisable => CoreRequest::WriteWord { addr: NVMC_CONFIG_ADDR, value: 0 },
            UicrPhase::AwaitReadyAfterDisable => CoreRequest::ReadWord { addr: NVMC_READY_ADDR },
            UicrPhase::AwaitPauseAfterDisable => CoreRequest::Sleep {
                ms: NVMC_READY_POLL_INTERVAL_MS,
            },
        }
    }

    /// The writer in the same run, one phase further.
    pub open spec fn spec_at(self, phase: UicrPhase) -> UicrWriter {
        UicrWriter { addr: self.addr, value: self.value, phase }
    }

    /// What one step of the writer decides, as a function of the phase and
    /// the reply to the pending request.
    ///
    /// A reply that does not answer the pending request counts as a
    /// transport failure; the front end never produces one.
    pub open spec fn spec_step(self, reply: Reply) -> UicrStep {
        match (self.phase, reply) {
            (UicrPhase::AwaitCurrent, Reply::Value(current)) => {
                if current & self.value != self.value && current != UICR_ERASED_WORD {
                    UicrStep::Failed(UicrFailure::NeedsMassErase)
                } else {
                    let next = self.spec_at(UicrPhase::AwaitEnable);
                    UicrStep::Next(next, next.spec_pending())
                }
            },
            (UicrPhase::AwaitEnable, Reply::Ack) => {
                let next = self.spec_at(UicrPhase::AwaitReadyAfterEnable);
                UicrStep::Next(next, next.spec_pending())
            },
            (UicrPhase::AwaitReadyAfterEnable, Reply::Value(ready)) => {
                if ready & 1 == 1 {
                    let next = self.spec_at(UicrPhase::AwaitValueWritten);
                    UicrStep::Next(next, next.spec_pending())
                } else {
                    let next = self.spec_at(UicrPhase::AwaitPauseAfterEnable);
                    UicrStep::Next(next, next.spec_pending())
                }
            },
            (UicrPhase::AwaitPauseAfterEnable, Reply::Ack) => {
                let next = self.spec_at(UicrPhase::AwaitReadyAfterEnable);
                UicrStep::Next(next, next.spec_pending())
            },
            (UicrPhase::AwaitValueWritten, Reply::Ack) => {
                let next = self.spec_at(UicrPhase::AwaitReadyAfterWrite);
                UicrStep::Next(next, next.spec_pending())
            },
            (UicrPhase::AwaitReadyAfterWrite, Reply::Value(ready)) => {
                if ready & 1 == 1 {
                    let next = self.spec_at(UicrPhase::AwaitDisable);
                    UicrStep::Next(next, next.spec_pending())
                } else {
                    let next = self.spec_at(UicrPhase::AwaitPauseAfterWrite);
                    UicrStep::Next(next, next.spec_pending())
                }
            },
            (UicrPhase::AwaitPauseAfterWrite, Reply::Ack) => {
                let next = self.spec_at(UicrPhase::AwaitReadyAfterWrite);
                UicrStep::Next(next, next.spec_pending())
            },
            (UicrPhase::AwaitDisable, Reply::Ack) => {
                let next = self.spec_at(UicrPhase::AwaitReadyAfterDisable);
                UicrStep::Next(next, next.spec_pending())
            },
            (UicrPhase::AwaitReadyAfterDisable, Reply::Value(ready)) => {
                if ready & 1 == 1 {
                    UicrStep::Done
                } else {
                    let next = self.spec_at(UicrPhase::AwaitPauseAfterDisable);
                    UicrStep::Next(next, next.spec_pending())
                }
            },
            (UicrPhase::AwaitPauseAfterDisable, Reply::Ack) => {
                let next = self.spec_at(UicrPhase::AwaitReadyAfterDisable);
                UicrStep::Next(next, next.spec_pending())
            },
            _ => UicrStep::Failed(UicrFailure::Transport),
        }
    }

    /// Consumes the reply to the pending request and decides the next move.
    pub fn step(self, reply: Reply) -> (r: UicrStep)
        ensures
            r == self.spec_step(reply),
    {
        match (self.phase, reply) {
            (UicrPhase::AwaitCurrent, Reply::Value(current)) => {
                if current & self.value != self.value && current != UICR_ERASED_WORD {
                    UicrStep::Failed(UicrFailure::NeedsMassErase)
                } else {
                    self.advance(UicrPhase::AwaitEnable)
                }
            },
            (UicrPhase::AwaitEnable, Reply::Ack) => self.advance(UicrPhase::AwaitReadyAfterEnable),
            (UicrPhase::AwaitReadyAfterEnable, Reply::Value(ready)) => {
                if ready & 1 == 1 {
                    self.advance(UicrPhase::AwaitValueWritten)
                } else {
                    self.advance(UicrPhase::AwaitPauseAfterEnable)
                }
            },
            (UicrPhase::AwaitPauseAfterEnable, Reply::Ack) => self.advance(
                UicrPhase::AwaitReadyAfterEnable,
            ),
            (UicrPhase::AwaitValueWritten, Reply::Ack) => self.advance(
                UicrPhase::AwaitReadyAfterWrite,
            ),
            (UicrPhase::AwaitReadyAfterWrite, Reply::Value(ready)) => {
                if ready & 1 == 1 {
                    self.advance(UicrPhase::AwaitDisable)
                } else {
                    self.advance(UicrPhase::AwaitPauseAfterWrite)
                }
            },
            (UicrPhase::AwaitPauseAfterWrite, Reply::Ack) => self.advance(
                UicrPhase::AwaitReadyAfterWrite,
            ),
            (UicrPhase::AwaitDisable, Reply::Ack) => self.advance(
                UicrPhase::AwaitReadyAfterDisable,
            ),
            (UicrPhase::AwaitReadyAfterDisable, Reply::Value(ready)) => {
                if ready & 1 == 1 {
                    UicrStep::Done
                } else {
                    self.advance(UicrPhase::AwaitPauseAfterDisable)
                }
            },
            (UicrPhase::AwaitPauseAfterDisable, Reply::Ack) => self.advance(
                UicrPhase::AwaitReadyAfterDisable,
            ),
            _ => UicrStep::Failed(UicrFailure::Transport),
        }
    }

    /// Moves to `phase` and issues that phase's pending request.
    fn advance(self, phase: UicrPhase) -> (r: UicrStep)
        ensures
            r matches UicrStep::Next(w2, req) && w2 == self.spec_at(phase) && req
                == w2.spec_pending(),
    {
        let next = UicrWriter { addr: self.addr, value: self.value, phase };
        let req = match phase {
            UicrPhase::AwaitCurrent => CoreRequest::ReadWord { addr: self.addr },
            UicrPhase::AwaitEnable => CoreRequest::WriteWord { addr: NVMC_CONFIG_ADDR, value: 1 },
            UicrPhase::AwaitReadyAfterEnable => CoreRequest::ReadWord { addr: NVMC_READY_ADDR },
            UicrPhase::AwaitPauseAfterEnable => CoreRequest::Sleep {
                ms: NVMC_READY_POLL_INTERVAL_MS,
            },
            UicrPhase::AwaitValueWritten => CoreRequest::WriteWord {
                addr: self.addr,
                value: self.value,
            },
            UicrPhase::AwaitReadyAfterWrite => CoreRequest::ReadWord { addr: NVMC_READY_ADDR },
            UicrPhase::AwaitPauseAfterWrite => CoreRequest::Sleep {
                ms: NVMC_READY_POLL_INTERVAL_MS,
            },
            UicrPhase::AwaitDisable => CoreRequest::WriteWord { addr: NVMC_CONFIG_ADDR, value: 0 },
            UicrPhase::AwaitReadyAfterDisable => CoreRequest::ReadWord { addr: NVMC_READY_ADDR },
            UicrPhase::AwaitPauseAfterDisable => CoreRequest::Sleep {
                ms: NVMC_READY_POLL_INTERVAL_MS,
            },
        };
        UicrStep::Next(next, req)
    }
}

/// Begins a protection write: the initial state, and the first request (the
/// read of the word's current value).
pub fn start(addr: u64, value: u32) -> (r: (UicrWriter, CoreRequest))
    ensures
        r.0 == (UicrWriter { addr, value, phase: UicrPhase::AwaitCurrent }),
        r.1 == r.0.spec_pending(),
        !r.1.is_write(),
{
    let writer = UicrWriter { addr, value, phase: UicrPhase::AwaitCurrent };
    (writer, CoreRequest::ReadWord { addr })
}

/// Where a write that starts at `w` and consumes the replies `rs` stands.
/// Replies beyond the end of the run are ignored.
pub open spec fn spec_run(w: UicrWriter, rs: Seq<Reply>) -> UicrStep
    decreases rs.len(),
{
    if rs.len() == 0 {
        UicrStep::Next(w, w.spec_pending())
    } else {
        match w.spec_step(rs[0]) {
            UicrStep::Next(w2, _) => spec_run(w2, rs.drop_first()),
            ended => ended,
        }
    }
}

/// Every request the writer issues while consuming the replies `rs` from
/// state `w` (the request pending in `w` itself is not repeated here).
pub open spec fn spec_requests(w: UicrWriter, rs: Seq<Reply>) -> Seq<CoreRequest>
    decreases rs.len(),
{
    if rs.len() == 0 {
        Seq::empty()
    } else {
        match w.spec_step(rs[0]) {
            UicrStep::Next(w2, req) => seq![req] + spec_requests(w2, rs.drop_first()),
            _ => Seq::empty(),
        }
    }
}

/// The register writes the writer may still issue from a given phase, in
/// the order the protocol demands them.
pub open spec fn spec_remaining_writes(w: UicrWriter) -> Seq<CoreRequest> {
    match w.phase {
        UicrPhase::AwaitCurrent => seq![
            CoreRequest::WriteWord { addr: NVMC_CONFIG_ADDR, value: 1 },
            CoreRequest::WriteWord { addr: w.addr, value: w.value },
            CoreRequest::WriteWord { addr: NVMC_CONFIG_ADDR, value: 0 },
        ],
        UicrPhase::AwaitEnable
        | UicrPhase::AwaitReadyAfterEnable
        | UicrPhase::AwaitPauseAfterEnable => seq![
            CoreRequest::WriteWord { addr: w.addr, value: w.value },
            CoreRequest::WriteWord { addr: NVMC_CONFIG_ADDR, value: 0 },
        ],
        UicrPhase::AwaitValueWritten
        | UicrPhase::AwaitReadyAfterWrite
        | UicrPhase::AwaitPauseAfterWrite => seq![
            CoreRequest::WriteWord { addr: NVMC_CONFIG_ADDR, value: 0 },
        ],
        UicrPhase::AwaitDisable
        | UicrPhase::AwaitReadyAfterDisable
        | UicrPhase::AwaitPauseAfterDisable => Seq::empty(),
    }
}

/// The write requests among `rs`' requests, in order.
pub open spec fn spec_writes(w: UicrWriter, rs: Seq<Reply>) -> Seq<CoreRequest>
    decreases rs.len(),
{
    if rs.len() == 0 {
        Seq::empty()
    } else {
        match w.spec_step(rs[0]) {
            UicrStep::Next(w2, req) => if req.is_write() {
                seq![req] + spec_writes(w2, rs.drop_first())
            } else {
                spec_writes(w2, rs.drop_first())
            },
            _ => Seq::empty(),
        }
    }
}

/// The request a step hands out is always the one its successor state
/// awaits, and a step never changes which word is being written.
pub proof fn lemma_step_issues_pending(w: UicrWriter, reply: Reply)
    ensures
        w.spec_step(reply) matches UicrStep::Next(w2, req) ==> req == w2.spec_pending() && w2.addr
            == w.addr && w2.value == w.value,
{
}

/// A write that would need a mass erase is rejected outright: if the word's
/// current value is neither erased nor a bit-superset of the desired value,
/// the run fails with `NeedsMassErase` and issues no request at all after
/// the initial read — in particular no write to NVMC.CONFIG and none to the
/// word itself.
pub proof fn lemma_incompatible_write_rejected(
    addr: u64,
    value: u32,
    current: u32,
    rs: Seq<Reply>,
)
    requires
        rs.len() >= 1,
        rs[0] == Reply::Value(current),
        current & value != value,
        current != UICR_ERASED_WORD,
    ensures
        spec_run(UicrWriter { addr, value, phase: UicrPhase::AwaitCurrent }, rs)
            == UicrStep::Failed(UicrFailure::NeedsMassErase),
        spec_requests(UicrWriter { addr, value, phase: UicrPhase::AwaitCurrent }, rs) == Seq::<
            CoreRequest,
        >::empty(),
        !(UicrWriter { addr, value, phase: UicrPhase::AwaitCurrent }).spec_pending().is_write(),
{
}

/// An erased word accepts any desired value: its bits are all set, so every
/// desired value is a bit-subset of it.
pub proof fn lemma_erased_word_accepts_any_value(value: u32)
    ensures
        spec_write_allowed(UICR_ERASED_WORD, value),
{
    assert(0xFFFF_FFFFu32 & value == value) by (bit_vector);
}

/// On an erased word, with a controller that is ready at every poll, the
/// run succeeds and performs the six protocol steps in exactly the required
/// order: enable write mode, poll READY, write the word, poll READY,
/// disable write mode, poll READY.
pub proof fn lemma_erased_word_full_protocol(addr: u64, value: u32, rs: Seq<Reply>)
    requires
        rs =~= seq![
            Reply::Value(UICR_ERASED_WORD),
            Reply::Ack,
            Reply::Value(1),
            Reply::Ack,
            Reply::Value(1),
            Reply::Ack,
            Reply::Value(1),
        ],
    ensures
        spec_run(UicrWriter { addr, value, phase: UicrPhase::AwaitCurrent }, rs) == UicrStep::Done,
        spec_requests(UicrWriter { addr, value, phase: UicrPhase::AwaitCurrent }, rs) =~= seq![
            CoreRequest::WriteWord { addr: NVMC_CONFIG_ADDR, value: 1 },
            CoreRequest::ReadWord { addr: NVMC_READY_ADDR },
            CoreRequest::WriteWord { addr, value },
            CoreRequest::ReadWord { addr: NVMC_READY_ADDR },
            CoreRequest::WriteWord { addr: NVMC_CONFIG_ADDR, value: 0 },
            CoreRequest::ReadWord { addr: NVMC_READY_ADDR },
        ],
{
    lemma_erased_word_accepts_any_value(value);
    let w0 = UicrWriter { addr, value, phase: UicrPhase::AwaitCurrent };
    let w1 = w0.spec_at(UicrPhase::AwaitEnable);
    let w2 = w0.spec_at(UicrPhase::AwaitReadyAfterEnable);
    let w3 = w0.spec_at(UicrPhase::AwaitValueWritten);
    let w4 = w0.spec_at(UicrPhase::AwaitReadyAfterWrite);
    let w5 = w0.spec_at(UicrPhase::AwaitDisable);
    let w6 = w0.spec_at(UicrPhase::AwaitReadyAfterDisable);
    let r1 = rs.drop_first();
    let r2 = r1.drop_first();
    let r3 = r2.drop_first();
    let r4 = r3.drop_first();
    let r5 = r4.drop_first();
    let r6 = r5.drop_first();
    let r7 = r6.drop_first();
    assert(r7.len() == 0);
    assert(1u32 & 1 == 1) by (bit_vector);
    assert(r1[0] == rs[1]);
    assert(r2[0] == rs[2]);
    assert(r3[0] == rs[3]);
    assert(r4[0] == rs[4]);
    assert(r5[0] == rs[5]);
    assert(r6[0] == rs[6]);
    assert(spec_run(w0, rs) == spec_run(w1, r1));
    assert(spec_run(w1, r1) == spec_run(w2, r2));
    assert(spec_run(w2, r2) == spec_run(w3, r3));
    assert(spec_run(w3, r3) == spec_run(w4, r4));
    assert(spec_run(w4, r4) == spec_run(w5, r5));
    assert(spec_run(w5, r5) == spec_run(w6, r6));
    assert(spec_run(w6, r6) == UicrStep::Done);
    assert(spec_requests(w6, r6) == Seq::<CoreRequest>::empty());
    assert(spec_requests(w5, r5) == seq![w6.spec_pending()] + spec_requests(w6, r6));
    assert(spec_requests(w4, r4) == seq![w5.spec_pending()] + spec_requests(w5, r5));
    assert(spec_requests(w3, r3) == seq![w4.spec_pending()] + spec_requests(w4, r4));
    assert(spec_requests(w2, r2) == seq![w3.spec_pending()] + spec_requests(w3, r3));
    assert(spec_requests(w1, r1) == seq![w2.spec_pending()] + spec_requests(w1.spec_at(
        UicrPhase::AwaitReadyAfterEnable,
    ), r2));
    assert(spec_requests(w0, rs) == seq![w1.spec_pending()] + spec_requests(w1, r1));
}

/// A run that completes issued every protocol write still owed from its
/// starting phase: from the start of a write, exactly CONFIG = 1, then the
/// word itself, then CONFIG = 0, in that order — whatever the controller's
/// READY schedule was and however long each poll went on.
pub proof fn lemma_done_run_wrote_exactly_the_protocol(w: UicrWriter, rs: Seq<Reply>)
    requires
        spec_run(w, rs) == UicrStep::Done,
    ensures
        spec_writes(w, rs) == spec_remaining_writes(w),
    decreases rs.len(),
{
    if rs.len() == 0 {
    } else {
        match w.spec_step(rs[0]) {
            UicrStep::Next(w2, req) => {
                lemma_done_run_wrote_exactly_the_protocol(w2, rs.drop_first());
                if req.is_write() {
                    assert(spec_remaining_writes(w) == seq![req] + spec_remaining_writes(w2));
                } else {
                    assert(spec_remaining_writes(w2) == spec_remaining_writes(w));
                }
            },
            UicrStep::Done => {
                assert(w.phase is AwaitReadyAfterDisable);
            },
            UicrStep::Failed(_) => {},
        }
    }
}

/// Whatever the controller reports and however long the polls go on, the
/// register writes a run issues form an initial segment of the protocol
/// order: CONFIG = 1, then the word itself, then CONFIG = 0 — never out of
/// order, never repeated, never any other write.
pub proof fn lemma_writes_in_protocol_order(w: UicrWriter, rs: Seq<Reply>)
    ensures
        is_prefix_of(spec_writes(w, rs), spec_remaining_writes(w)),
    decreases rs.len(),
{
    if rs.len() == 0 {
    } else {
        match w.spec_step(rs[0]) {
            UicrStep::Next(w2, req) => {
                lemma_writes_in_protocol_order(w2, rs.drop_first());
                if req.is_write() {
                    assert(spec_remaining_writes(w) == seq![req] + spec_remaining_writes(w2));
                } else {
                    assert(spec_remaining_writes(w2) == spec_remaining_writes(w));
                }
            },
            _ => {},
        }
    }
}

} // verus!
