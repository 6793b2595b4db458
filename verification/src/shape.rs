//! Encoders for the nonstandard shape extension. Its requests reuse the
//! extension's major opcode, learned at run time from QueryExtension,
//! with a per-request minor opcode in the second byte.

use vstd::prelude::*;
use crate::requests::PixmapId;
use crate::requests::WindowId;
use crate::wire::le2;
use crate::wire::le4;
use crate::wire::put_u16_le;
use crate::wire::put_u32_le;
use crate::wire::put_u8;

verus! {

/// Which of a window's shapes a request addresses.
#[derive(Copy, Clone, Debug, PartialEq, Eq, Structural)]
pub enum ShapeKind {
    Bounding,
    Clip,
    Input,
}

impl ShapeKind {
    pub open spec fn spec_code(self) -> u8 {
        match self {
            ShapeKind::Bounding => 0,
            ShapeKind::Clip => 1,
            ShapeKind::Input => 2,
        }
    }

    pub fn code(self) -> (r: u8)
        ensures
            r == self.spec_code(),
    {
        match self {
            ShapeKind::Bounding => 0,
            ShapeKind::Clip => 1,
            ShapeKind::Input => 2,
        }
    }
}

/// How a request combines a new region with the existing shape.
#[derive(Copy, Clone, Debug, PartialEq, Eq, Structural)]
pub enum ShapeOperations {
    SetShape,
    Union,
    Intersect,
    Subtract,
    Invert,
}

impl ShapeOperations {
    pub open spec fn spec_code(self) -> u8 {
        match self {
            ShapeOperations::SetShape => 0,
            ShapeOperations::Union => 1,
            ShapeOperations::Intersect => 2,
            ShapeOperations::Subtract => 3,
            ShapeOperations::Invert => 4,
        }
    }

    pub fn code(self) -> (r: u8)
        ensures
            r == self.spec_code(),
    {
        match self {
            ShapeOperations::SetShape => 0,
            ShapeOperations::Union => 1,
            ShapeOperations::Intersect => 2,
            ShapeOperations::Subtract => 3,
            ShapeOperations::Invert => 4,
        }
    }
}

pub open spec fn shape_query_version_bytes(major: u8) -> Seq<u8> {
    seq![major, 0u8] + le2(1)
}

pub open spec fn shape_rectangles_bytes(major: u8, wid: WindowId, x: u16, y: u16) -> Seq<u8> {
    seq![major, 1u8] + le2(4) + seq![0u8, 1u8, 0u8, 0u8] + le4(wid) + le2(x) + le2(y)
}

pub open spec fn shape_mask_bytes(
    major: u8,
    wid: WindowId,
    x: u16,
    y: u16,
    pixmap: Option<PixmapId>,
) -> Seq<u8> {
    seq![major, 2u8] + le2(5) + seq![0u8, 1u8, 0u8, 0u8] + le4(wid) + le2(x) + le2(y) + (
    match pixmap {
        Some(p) => le4(p),
        None => le4(0),
    })
}

/// Handle for the shape extension, bound to the major opcode the server
/// assigned to it.
pub struct ShapeExtension {
    pub major_opcode: u8,
}

impl ShapeExtension {
    pub fn new(major_opcode: u8) -> (r: ShapeExtension)
        ensures
            r.major_opcode == major_opcode,
    {
        ShapeExtension { major_opcode }
    }

    pub fn query_version(&self, buf: &mut Vec<u8>)
        ensures
            final(buf)@ == old(buf)@ + shape_query_version_bytes(self.major_opcode),
    {
        put_u8(buf, self.major_opcode);  // opcode
        put_u8(buf, 0);  // shape opcode
        put_u16_le(buf, 1);  // request length
        assert(buf@ =~= old(buf)@ + shape_query_version_bytes(self.major_opcode));
    }

    /// Sets the clip shape of `window_id` from a rectangle list; this
    /// encoding carries an empty list.
    pub fn rectangles(&self, buf: &mut Vec<u8>, window_id: WindowId, x_offset: u16, y_offset: u16)
        ensures
            final(buf)@ == old(buf)@ + shape_rectangles_bytes(
                self.major_opcode,
                window_id,
                x_offset,
                y_offset,
            ),
    {
        put_u8(buf, self.major_opcode);  // opcode
        put_u8(buf, 1);  // shape opcode
        put_u16_le(buf, 4);  // request length: 16 bytes, in 4-byte units
        put_u8(buf, ShapeOperations::SetShape.code());  // shape operation
        put_u8(buf, ShapeKind::Clip.code());  // destination kind
        put_u8(buf, 0);  // ordering
        put_u8(buf, 0);  // unused
        put_u32_le(buf, window_id);
        put_u16_le(buf, x_offset);
        put_u16_le(buf, y_offset);
        assert(buf@ =~= old(buf)@ + shape_rectangles_bytes(
            self.major_opcode,
            window_id,
            x_offset,
            y_offset,
        ));
    }

    /// Sets the clip shape of `window_id` from a bitmap, or clears it
    /// when no pixmap is given.
    pub fn mask(
        &self,
        buf: &mut Vec<u8>,
        window_id: WindowId,
        x_offset: u16,
        y_offset: u16,
        pixmap_id: Option<PixmapId>,
    )
        ensures
            final(buf)@ == old(buf)@ + shape_mask_bytes(
                self.major_opcode,
                window_id,
                x_offset,
                y_offset,
                pixmap_id,
            ),
    {
        put_u8(buf, self.major_opcode);  // opcode
        put_u8(buf, 2);  // shape opcode
        put_u16_le(buf, 5);  // request length
        put_u8(buf, ShapeOperations::SetShape.code());  // shape operation
        put_u8(buf, ShapeKind::Clip.code());  // destination kind
        put_u8(buf, 0);  // unused
        put_u8(buf, 0);  // unused
        put_u32_le(buf, window_id);
        put_u16_le(buf, x_offset);
        put_u16_le(buf, y_offset);
        if let Some(pixmap) = pixmap_id {
            put_u32_le(buf, pixmap);  // source bitmap
        } else {
            put_u32_le(buf, 0);  // no source bitmap
        }
        assert(buf@ =~= old(buf)@ + shape_mask_bytes(
            self.major_opcode,
            window_id,
            x_offset,
            y_offset,
            pixmap_id,
        ));
    }

    /// Encodes nothing yet; the extension offers this request but this
    /// client has no use for it.
    pub fn combine(&self) {
    }

    /// Encodes nothing yet.
    pub fn offset(&self) {
    }

    /// Encodes nothing yet.
    pub fn query_extends(&self) {
    }

    /// Encodes nothing yet.
    pub fn select_input(&self) {
    }

    /// Encodes nothing yet.
    pub fn input_selected(&self) {
    }

    /// Encodes nothing yet.
    pub fn get_rectangles(&self) {
    }
}

} // verus!
