//! Parsers for the reply frames this client requests. Each takes the
//! complete frame as delivered by the classifier, first byte included.

use vstd::prelude::*;
use crate::wire::copy_range;
use crate::wire::read_u16_le;
use crate::wire::read_u32_le;
use crate::wire::read_u8;
use crate::wire::u16_at;
use crate::wire::u32_at;

verus! {

/// Header fields of a GetWindowAttributes reply.
#[derive(Copy, Clone, Debug, PartialEq, Eq, Structural)]
pub struct WindowAttributesReply {
    pub backing_store: u8,
    pub sequence_number: u16,
    pub reply_length: u32,
}

impl WindowAttributesReply {
    /// Reads the header fields; the rest of the 44-byte frame is
    /// consumed by the classifier's span, not interpreted here.
    pub fn from_bytes(frame: &[u8]) -> (r: WindowAttributesReply)
        requires
            frame@.len() >= 8,
        ensures
            r.backing_store == frame@[1],
            r.sequence_number == u16_at(frame@, 2),
            r.reply_length == u32_at(frame@, 4),
    {
        WindowAttributesReply {
            backing_store: read_u8(frame, 1),
            sequence_number: read_u16_le(frame, 2),
            reply_length: read_u32_le(frame, 4),
        }
    }
}

/// A QueryExtension reply: whether the extension is present and the
/// opcodes the server assigned to it.
#[derive(Copy, Clone, Debug, PartialEq, Eq, Structural)]
pub struct QueryExtensionReply {
    pub sequence_number: u16,
    pub reply_length: u32,
    pub present: bool,
    pub major_opcode: u8,
    pub first_event: u8,
    pub first_error: u8,
}

impl QueryExtensionReply {
    pub fn from_bytes(frame: &[u8]) -> (r: QueryExtensionReply)
        requires
            frame@.len() >= 12,
        ensures
            r.sequence_number == u16_at(frame@, 2),
            r.reply_length == u32_at(frame@, 4),
            r.present == (frame@[8] != 0),
            r.major_opcode == frame@[9],
            r.first_event == frame@[10],
            r.first_error == frame@[11],
    {
        QueryExtensionReply {
            sequence_number: read_u16_le(frame, 2),
            reply_length: read_u32_le(frame, 4),
            present: read_u8(frame, 8) != 0,
            major_opcode: read_u8(frame, 9),
            first_event: read_u8(frame, 10),
            first_error: read_u8(frame, 11),
        }
    }
}

#[derive(Copy, Clone, Debug, PartialEq, Eq, Structural)]
pub enum ReplyError {
    /// A length-prefixed string runs past the end of the frame.
    Truncated,
}

/// `count` length-prefixed strings starting at `off`, with the offset
/// just past the last one; or `Truncated` if they outrun the bytes.
pub open spec fn spec_names(s: Seq<u8>, off: int, count: nat) -> Result<
    (Seq<Seq<u8>>, int),
    ReplyError,
>
    decreases count,
{
    if count == 0 {
        Ok((Seq::empty(), off))
    } else if off >= s.len() {
        Err(ReplyError::Truncated)
    } else {
        let len = s[off] as int;
        if off + 1 + len > s.len() {
            Err(ReplyError::Truncated)
        } else {
            match spec_names(s, off + 1 + len, (count - 1) as nat) {
                Err(e) => Err(e),
                Ok(p) => Ok((seq![s.subrange(off + 1, off + 1 + len)] + p.0, p.1)),
            }
        }
    }
}

/// Reads `count` length-prefixed strings starting at `start`.
pub fn parse_name_list(reply: &[u8], start: usize, count: usize) -> (r: Result<
    (Vec<Vec<u8>>, usize),
    ReplyError,
>)
    requires
        start <= reply@.len(),
    ensures
        match r {
            Ok(p) => spec_names(reply@, start as int, count as nat) == Ok::<_, ReplyError>(
                (p.0.deep_view(), p.1 as int),
            ),
            Err(e) => spec_names(reply@, start as int, count as nat) == Err::<
                (Seq<Seq<u8>>, int),
                _,
            >(e),
        },
{
    let mut names: Vec<Vec<u8>> = Vec::new();
    let mut pos: usize = start;
    let mut rem: usize = count;
    assert(names.deep_view() =~= Seq::<Seq<u8>>::empty());
    while rem > 0
        invariant
            pos <= reply@.len(),
            match spec_names(reply@, pos as int, rem as nat) {
                Ok(p) => spec_names(reply@, start as int, count as nat) == Ok::<_, ReplyError>(
                    (names.deep_view() + p.0, p.1),
                ),
                Err(e) => spec_names(reply@, start as int, count as nat) == Err::<
                    (Seq<Seq<u8>>, int),
                    _,
                >(e),
            },
        decreases rem,
    {
        if pos >= reply.len() {
            return Err(ReplyError::Truncated);
        }
        let len = read_u8(reply, pos) as usize;
        if len > reply.len() - (pos + 1) {
            return Err(ReplyError::Truncated);
        }
        let name = copy_range(reply, pos + 1, len);
        let ghost pre_deep = names.deep_view();
        let ghost name_seq = name@;
        names.push(name);
        proof {
            assert(names.deep_view() =~~= pre_deep.push(name_seq));
            let rest = spec_names(reply@, pos + 1 + len, (rem - 1) as nat);
            if rest is Ok {
                assert(pre_deep.push(name_seq) + rest->Ok_0.0 =~= pre_deep + (seq![name_seq]
                    + rest->Ok_0.0));
            }
        }
        pos = pos + 1 + len;
        rem = rem - 1;
    }
    proof {
        assert(names.deep_view() + Seq::<Seq<u8>>::empty() =~= names.deep_view());
    }
    Ok((names, pos))
}

/// Names start at byte 32 of a ListFonts reply; their count is the
/// 16-bit field at byte 8.
pub fn parse_font_names(reply: &[u8]) -> (r: Result<(Vec<Vec<u8>>, usize), ReplyError>)
    requires
        reply@.len() >= 32,
    ensures
        match r {
            Ok(p) => spec_names(reply@, 32, u16_at(reply@, 8) as nat) == Ok::<_, ReplyError>(
                (p.0.deep_view(), p.1 as int),
            ),
            Err(e) => spec_names(reply@, 32, u16_at(reply@, 8) as nat) == Err::<
                (Seq<Seq<u8>>, int),
                _,
            >(e),
        },
{
    let count = read_u16_le(reply, 8);
    parse_name_list(reply, 32, count as usize)
}

/// Names start at byte 32 of a ListExtensions reply; their count is the
/// byte at offset 1.
pub fn parse_extension_names(reply: &[u8]) -> (r: Result<(Vec<Vec<u8>>, usize), ReplyError>)
    requires
        reply@.len() >= 32,
    ensures
        match r {
            Ok(p) => spec_names(reply@, 32, reply@[1] as nat) == Ok::<_, ReplyError>(
                (p.0.deep_view(), p.1 as int),
            ),
            Err(e) => spec_names(reply@, 32, reply@[1] as nat) == Err::<(Seq<Seq<u8>>, int), _>(
                e,
            ),
        },
{
    let count = read_u8(reply, 1);
    parse_name_list(reply, 32, count as usize)
}

} // verus!
