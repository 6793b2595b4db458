//! Classification of the inbound byte stream into discrete messages.
//!
//! Every frame is at least 32 bytes. The first byte decides the kind:
//! 0 is an error frame, 1 a reply frame, 2 through 34 an event subtype.
//! Replies carry no tag naming their request; the protocol guarantees
//! they arrive in the order the expecting requests were issued, so the
//! classifier consumes the oldest registered expectation per reply.

use vstd::prelude::*;
use crate::events::DecodedEvent;
use crate::events::decode_event;
use crate::events::spec_decode_event;
use crate::protocol::ErrorCode;
use crate::protocol::EventKind;
use crate::protocol::Opcode;
use crate::wire::read_u32_le;
use crate::wire::read_u8;
use crate::wire::read_u16_le;
use crate::wire::u16_at;
use crate::wire::u32_at;

verus! {

/// A protocol-reported error, decoded from one 32-byte error frame.
/// These are data, not failures: the stream stays aligned and the
/// session continues.
#[derive(Copy, Clone, Debug, PartialEq, Eq)]
pub struct XError {
    pub code: ErrorCode,
    /// Low 16 bits of the sequence number of the offending request.
    pub sequence_number: u16,
    /// The bad resource id or value, for the codes that carry one; the
    /// other codes leave the field unused and it is not interpreted.
    pub value: Option<u32>,
    pub minor_opcode: u16,
    pub major_opcode: u8,
}

/// A condition that desynchronises or ends the session: the inbound
/// stream's alignment can no longer be trusted.
#[derive(Copy, Clone, Debug, PartialEq, Eq)]
pub enum DemuxError {
    /// First byte of a frame is no known message kind.
    UnknownFirstByte(u8),
    /// An event subtype without a decode path here.
    UnsupportedEvent(u8),
    /// An error frame whose code byte is outside the closed enumeration.
    UnknownErrorCode(u8),
    /// A reply frame arrived with no registered expectation.
    NoPendingReply,
}

/// What one call of `next_message` concluded about the buffer's front.
#[derive(Copy, Clone, Debug, PartialEq, Eq)]
pub enum Classification {
    /// No complete frame yet: nothing was consumed, and nothing can be
    /// concluded before the buffer holds at least `at_least` bytes.
    NeedMore { at_least: u64 },
    /// A 32-byte error frame.
    ErrorFrame { error: XError },
    /// A complete reply frame of `span` bytes, answering the oldest
    /// registered expectation.
    Reply { opcode: Opcode, span: u64 },
    /// A 32-byte event frame.
    EventFrame { kind: EventKind, event: DecodedEvent },
}

/// What an error frame decodes to.
pub open spec fn spec_decode_error_frame(s: Seq<u8>) -> Result<XError, DemuxError>
    recommends
        s.len() >= 32,
        s[0] == 0,
{
    match ErrorCode::spec_from_u8(s[1]) {
        None => Err(DemuxError::UnknownErrorCode(s[1])),
        Some(code) => Ok(
            XError {
                code,
                sequence_number: u16_at(s, 2),
                value: if code.spec_has_value() {
                    Some(u32_at(s, 4))
                } else {
                    None
                },
                minor_opcode: u16_at(s, 8),
                major_opcode: s[10],
            },
        ),
    }
}

/// Decodes one error frame: code byte, sequence number, the
/// kind-specific value field exactly for the codes that define one,
/// then minor and major opcode; the 21 trailing bytes stay unread.
pub fn decode_error_frame(frame: &[u8]) -> (r: Result<XError, DemuxError>)
    requires
        frame@.len() >= 32,
        frame@[0] == 0,
    ensures
        r == spec_decode_error_frame(frame@),
{
    let raw_code = read_u8(frame, 1);
    match ErrorCode::from_u8(raw_code) {
        None => Err(DemuxError::UnknownErrorCode(raw_code)),
        Some(code) => {
            let value = if code.has_value() {
                Some(read_u32_le(frame, 4))
            } else {
                None
            };
            Ok(
                XError {
                    code,
                    sequence_number: read_u16_le(frame, 2),
                    value,
                    minor_opcode: read_u16_le(frame, 8),
                    major_opcode: read_u8(frame, 10),
                },
            )
        },
    }
}

/// Total length in bytes of the reply frame starting at `s[0]`: the
/// fixed 32 bytes plus the extended length the reply header declares
/// in 4-byte units.
pub open spec fn spec_reply_span(s: Seq<u8>) -> int
    recommends
        s.len() >= 8,
{
    32 + 4 * (u32_at(s, 4) as int)
}

/// What `next_message` concludes from buffer `s` and the FIFO of
/// registered expectations.
pub open spec fn spec_next_message(s: Seq<u8>, pending: Seq<Opcode>) -> Result<
    Classification,
    DemuxError,
> {
    if s.len() < 32 {
        Ok(Classification::NeedMore { at_least: 32 })
    } else if s[0] == 0 {
        match spec_decode_error_frame(s) {
            Ok(error) => Ok(Classification::ErrorFrame { error }),
            Err(e) => Err(e),
        }
    } else if s[0] == 1 {
        let span = spec_reply_span(s);
        if s.len() < span {
            Ok(Classification::NeedMore { at_least: span as u64 })
        } else if pending.len() == 0 {
            Err(DemuxError::NoPendingReply)
        } else {
            Ok(Classification::Reply { opcode: pending[0], span: span as u64 })
        }
    } else {
        match EventKind::spec_from_u8(s[0]) {
            Some(kind) => match spec_decode_event(kind, s) {
                Some(event) => Ok(Classification::EventFrame { kind, event }),
                None => Err(DemuxError::UnsupportedEvent(s[0])),
            },
            None => if s[0] <= 34 {
                Err(DemuxError::UnsupportedEvent(s[0]))
            } else {
                Err(DemuxError::UnknownFirstByte(s[0]))
            },
        }
    }
}

/// The demultiplexer's state: the FIFO of request kinds that were
/// registered as expecting a reply and have not been answered yet.
pub struct Demultiplexer {
    pub pending: Vec<Opcode>,
}

impl Demultiplexer {
    pub fn new() -> (r: Demultiplexer)
        ensures
            r.pending@.len() == 0,
    {
        Demultiplexer { pending: Vec::new() }
    }

    /// Registers an expectation for the oldest-first reply order. Must
    /// happen before the request's bytes are written to the socket, so
    /// that no reply can be classified before its entry exists.
    pub fn register(&mut self, opcode: Opcode)
        ensures
            final(self).pending@ == old(self).pending@.push(opcode),
    {
        self.pending.push(opcode);
    }

    pub fn pending_count(&self) -> (r: usize)
        ensures
            r == self.pending@.len(),
    {
        self.pending.len()
    }

    /// Classifies the front of the accumulated buffer. A reply is
    /// delivered only when the buffer holds its whole declared span,
    /// and consumes exactly the oldest expectation; every other outcome
    /// leaves the expectation FIFO unchanged. The caller discards the
    /// returned span's bytes before the next call; on `NeedMore` it
    /// reads more bytes from the socket first.
    pub fn next_message(&mut self, buf: &[u8]) -> (r: Result<Classification, DemuxError>)
        ensures
            r == spec_next_message(buf@, old(self).pending@),
            match r {
                Ok(Classification::Reply { .. }) => final(self).pending@ == old(
                    self,
                ).pending@.drop_first(),
                _ => final(self).pending@ == old(self).pending@,
            },
    {
        let n = buf.len();
        if n < 32 {
            return Ok(Classification::NeedMore { at_least: 32 });
        }
        let first = read_u8(buf, 0);
        if first == 0 {
            match decode_error_frame(buf) {
                Ok(error) => Ok(Classification::ErrorFrame { error }),
                Err(e) => Err(e),
            }
        } else if first == 1 {
            let span: u64 = 32 + 4 * (read_u32_le(buf, 4) as u64);
            if (n as u64) < span {
                Ok(Classification::NeedMore { at_least: span })
            } else if self.pending.len() == 0 {
                Err(DemuxError::NoPendingReply)
            } else {
                let opcode = self.pending.remove(0);
                Ok(Classification::Reply { opcode, span })
            }
        } else {
            match EventKind::from_u8(first) {
                Some(kind) => match decode_event(kind, buf) {
                    Some(event) => Ok(Classification::EventFrame { kind, event }),
                    None => Err(DemuxError::UnsupportedEvent(first)),
                },
                None => if first <= 34 {
                    Err(DemuxError::UnsupportedEvent(first))
                } else {
                    Err(DemuxError::UnknownFirstByte(first))
                },
            }
        }
    }
}

/// Law: a reply is delivered only once the buffer holds the whole frame
/// — the fixed 32 bytes plus the extended length its header declares —
/// however the bytes arrived; a shorter buffer only asks for more.
pub proof fn lemma_reply_waits_for_declared_length(s: Seq<u8>, pending: Seq<Opcode>)
    ensures
        spec_next_message(s, pending) matches Ok(Classification::Reply { opcode, span })
            ==> s.len() >= spec_reply_span(s) && span == spec_reply_span(s) && pending.len() > 0
            && opcode == pending[0],
        s.len() >= 32 && s[0] == 1 && s.len() < spec_reply_span(s) ==> spec_next_message(
            s,
            pending,
        ) == Ok::<Classification, DemuxError>(
            Classification::NeedMore { at_least: spec_reply_span(s) as u64 },
        ),
{
}

} // verus!
