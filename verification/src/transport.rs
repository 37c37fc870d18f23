//! Vocabulary spoken between the state machines and the probe transport.
//!
//! A machine never touches the device itself. It hands the front end one
//! request at a time — a register access or a sleep — and consumes the
//! reply together with a wall-clock timestamp in milliseconds.

use vstd::prelude::*;

verus! {

/// One raw access-port operation requested from the transport.
#[derive(Clone, Copy, Debug, PartialEq, Eq, Structural)]
pub enum ApRequest {
    /// Read the 32-bit register at `addr` of access port `ap`.
    Read { ap: u8, addr: u64 },
    /// Write `value` to the 32-bit register at `addr` of access port `ap`.
    Write { ap: u8, addr: u64, value: u32 },
    /// Sleep for `ms` milliseconds.
    Sleep { ms: u64 },
}

/// One operation on an attached target core requested from the transport.
#[derive(Clone, Copy, Debug, PartialEq, Eq, Structural)]
pub enum CoreRequest {
    /// Read the 32-bit word at memory address `addr`.
    ReadWord { addr: u64 },
    /// Write `value` to the 32-bit word at memory address `addr`.
    WriteWord { addr: u64, value: u32 },
    /// Sleep for `ms` milliseconds.
    Sleep { ms: u64 },
}

/// The transport's answer to the most recent request.
#[derive(Clone, Copy, Debug, PartialEq, Eq, Structural)]
pub enum Reply {
    /// A read completed and returned this word.
    Value(u32),
    /// A write or a sleep completed.
    Ack,
    /// The transport could not perform the request.
    Fault,
}

/// A reply paired with the timestamp at which it arrived.
#[derive(Clone, Copy, Debug, PartialEq, Eq, Structural)]
pub struct TimedReply {
    /// The transport's answer.
    pub reply: Reply,
    /// Milliseconds on the front end's clock when the answer arrived.
    pub now_ms: u64,
}

/// `a` is an initial segment of `b`.
pub open spec fn is_prefix_of<T>(a: Seq<T>, b: Seq<T>) -> bool {
    a.len() <= b.len() && forall|i: int| 0 <= i < a.len() ==> a[i] == b[i]
}

impl ApRequest {
    /// Whether this request writes a register.
    pub open spec fn is_write(self) -> bool {
        self is Write
    }
}

impl CoreRequest {
    /// Whether this request writes a memory word.
    pub open spec fn is_write(self) -> bool {
        self is WriteWord
    }
}

} // verus!
