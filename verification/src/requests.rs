//! Encoders for outgoing requests.
//!
//! Every request starts with a 1-byte opcode, one data byte, and a 2-byte
//! length in 4-byte units covering the whole request; variable trailers
//! are padded to a 4-byte boundary. Requests that create a server-side
//! resource draw a fresh id from the allocator and embed it.

use vstd::prelude::*;
use crate::ids::IdGenerator;
use crate::protocol::Opcode;
use crate::protocol::StackMode;
use crate::wire::le2;
use crate::wire::le4;
use crate::wire::put_bytes;
use crate::wire::put_i16_le;
use crate::wire::put_u16_le;
use crate::wire::put_u32_le;
use crate::wire::put_u8;
use crate::wire::put_zeros;
use crate::wire::spec_pad;
use crate::wire::pad;
use crate::wire::zeros;
use crate::wire::u16_at;
use crate::wire::u32_at;
use crate::wire::lemma_le4_round_trip;

verus! {

pub type WindowId = u32;

pub type GCId = u32;

pub type PixmapId = u32;

pub type VisualId = u32;

pub type FontId = u32;

/// The little-endian bytes of each value, in order.
pub open spec fn le4_concat(vs: Seq<u32>) -> Seq<u8>
    decreases vs.len(),
{
    if vs.len() == 0 {
        Seq::empty()
    } else {
        le4_concat(vs.drop_last()) + le4(vs.last())
    }
}

/// The number of set bits.
pub open spec fn popcount(x: u32) -> nat
    decreases x,
{
    if x == 0 {
        0
    } else {
        (x % 2) as nat + popcount((x / 2) as u32)
    }
}

/// A power of two added to a smaller number sets exactly one more bit.
proof fn lemma_popcount_add_pow2(m: u32, b: u32)
    requires
        b != 0,
        b & ((b - 1) as u32) == 0,
        m < b,
    ensures
        popcount((m + b) as u32) == popcount(m) + 1,
    decreases b,
{
    if b == 1 {
        assert(m == 0);
        assert(popcount(0) == 0);
        assert(popcount(1) == 1);
    } else {
        let m2 = (m / 2) as u32;
        let b2 = (b / 2) as u32;
        assert(b % 2 == 0 && b2 != 0 && (b2 & ((b2 - 1) as u32)) == 0) by (bit_vector)
            requires
                b != 0,
                b & ((b - 1) as u32) == 0,
                b > 1,
                m2 == (m / 2) as u32,
                b2 == (b / 2) as u32,
        ;
        assert(m2 < b2 && ((m + b) as u32) % 2 == m % 2 && (((m + b) as u32) / 2) as u32 == (m2
            + b2) as u32 && ((m + b) as u32) != 0) by (bit_vector)
            requires
                m < b,
                b & ((b - 1) as u32) == 0,
                b % 2 == 0,
                b > 1,
                m2 == (m / 2) as u32,
                b2 == (b / 2) as u32,
        ;
        lemma_popcount_add_pow2(m2, b2);
        assert(popcount((m + b) as u32) == ((m + b) as u32 % 2) as nat + popcount(
            ((((m + b) as u32) / 2) as u32)));
        assert(popcount(m) == (m % 2) as nat + popcount(m2));
    }
}

/// No 32-bit value has more than 32 set bits.
proof fn lemma_popcount_le(x: u32, k: nat)
    requires
        x < vstd::arithmetic::power2::pow2(k),
    ensures
        popcount(x) <= k,
    decreases k,
{
    if k == 0 {
        assert(vstd::arithmetic::power2::pow2(0) == 1) by {
            vstd::arithmetic::power2::lemma2_to64();
        }
        assert(x == 0);
    } else if x == 0 {
    } else {
        vstd::arithmetic::power2::lemma_pow2_unfold(k);
        let x2 = (x / 2) as u32;
        assert(x2 < vstd::arithmetic::power2::pow2((k - 1) as nat));
        lemma_popcount_le(x2, (k - 1) as nat);
    }
}

proof fn lemma_popcount_le_32(x: u32)
    ensures
        popcount(x) <= 32,
{
    vstd::arithmetic::power2::lemma2_to64();
    lemma_popcount_le(x, 32);
}

/// Ordered builder for a bitmask-keyed value list. The protocol requires
/// the optional values of a request to appear in strictly ascending order
/// of their mask bits; `add` rejects any bit that is not a power of two
/// above every bit already present, so a well-formed list always encodes
/// in canonical order, with exactly one value per set mask bit.
pub struct ValueList {
    /// The accumulated bitmask.
    pub mask: u32,
    /// One 32-bit value per set bit of `mask`, in ascending bit order.
    pub values: Vec<u32>,
}

impl ValueList {
    pub open spec fn wf(self) -> bool {
        self.values@.len() == popcount(self.mask)
    }

    pub fn new() -> (r: ValueList)
        ensures
            r.wf(),
            r.mask == 0,
            r.values@.len() == 0,
    {
        ValueList { mask: 0, values: Vec::new() }
    }

    /// Adds the value for one mask bit. Accepted exactly when `bit` is a
    /// single bit above every bit already in the mask; a rejected add
    /// leaves the list unchanged.
    pub fn add(&mut self, bit: u32, value: u32) -> (ok: bool)
        requires
            old(self).wf(),
        ensures
            final(self).wf(),
            ok <==> (bit != 0 && bit & ((bit - 1) as u32) == 0 && bit > old(self).mask),
            ok ==> final(self).mask == (old(self).mask | bit) && final(self).values@ == old(
                self).values@.push(value),
            !ok ==> *final(self) == *old(self),
    {
        if bit != 0 && bit & (bit - 1) == 0 && bit > self.mask {
            proof {
                let m = self.mask;
                assert(m < bit && bit != 0 && (bit & ((bit - 1) as u32)) == 0 ==> (m | bit)
                    == (m + bit) as u32) by (bit_vector);
                lemma_popcount_add_pow2(self.mask, bit);
            }
            self.mask = self.mask | bit;
            self.values.push(value);
            true
        } else {
            false
        }
    }
}

/// The fixed 12-byte connection-setup request: little-endian byte-order
/// marker, protocol version 11.0, and empty authorization name and data.
pub open spec fn spec_connection_request() -> Seq<u8> {
    seq![0x6cu8, 0u8] + le2(11) + le2(0) + le2(0) + le2(0) + le2(0)
}

pub fn connection_request_bytes() -> (r: Vec<u8>)
    ensures
        r@ == spec_connection_request(),
        r@ == seq![0x6cu8, 0u8, 11u8, 0u8, 0u8, 0u8, 0u8, 0u8, 0u8, 0u8, 0u8, 0u8],
{
    let mut buf: Vec<u8> = Vec::new();
    put_u8(&mut buf, 0x6c);  // little-endian byte order (LSB first)
    put_u8(&mut buf, 0);  // unused
    put_u16_le(&mut buf, 11);  // protocol major version
    put_u16_le(&mut buf, 0);  // protocol minor version
    put_u16_le(&mut buf, 0);  // length of authorization-protocol-name
    put_u16_le(&mut buf, 0);  // length of authorization-protocol-data
    put_u16_le(&mut buf, 0);  // unused
    assert(buf@ =~= spec_connection_request());
    assert(buf@ =~= seq![0x6cu8, 0u8, 11u8, 0u8, 0u8, 0u8, 0u8, 0u8, 0u8, 0u8, 0u8, 0u8]);
    buf
}

/// The shared shape of the requests that carry just one resource id.
pub open spec fn resource_request_bytes(op: u8, arg: u32) -> Seq<u8> {
    seq![op, 0u8] + le2(2) + le4(arg)
}

fn put_resource_request(buf: &mut Vec<u8>, op: Opcode, arg: u32)
    ensures
        final(buf)@ == old(buf)@ + resource_request_bytes(op.spec_code(), arg),
{
    put_u8(buf, op.code());  // opcode
    put_u8(buf, 0);  // unused
    put_u16_le(buf, 2);  // request length
    put_u32_le(buf, arg);
    assert(buf@ =~= old(buf)@ + resource_request_bytes(op.spec_code(), arg));
}

pub open spec fn destroy_window_bytes(wid: WindowId) -> Seq<u8> {
    resource_request_bytes(4, wid)
}

pub fn destroy_window_request(buf: &mut Vec<u8>, wid: WindowId)
    ensures
        final(buf)@ == old(buf)@ + destroy_window_bytes(wid),
{
    put_resource_request(buf, Opcode::DestroyWindow, wid);
}

pub open spec fn get_window_attributes_bytes(wid: WindowId) -> Seq<u8> {
    resource_request_bytes(3, wid)
}

pub fn get_window_attributes_request(buf: &mut Vec<u8>, wid: WindowId)
    ensures
        final(buf)@ == old(buf)@ + get_window_attributes_bytes(wid),
{
    put_resource_request(buf, Opcode::GetWindowAttributes, wid);
}

pub open spec fn map_window_bytes(wid: WindowId) -> Seq<u8> {
    resource_request_bytes(8, wid)
}

pub fn map_window_request(buf: &mut Vec<u8>, window_id: WindowId)
    ensures
        final(buf)@ == old(buf)@ + map_window_bytes(window_id),
{
    put_resource_request(buf, Opcode::MapWindow, window_id);
}

pub open spec fn unmap_window_bytes(wid: WindowId) -> Seq<u8> {
    resource_request_bytes(10, wid)
}

pub fn unmap_window_request(buf: &mut Vec<u8>, window_id: WindowId)
    ensures
        final(buf)@ == old(buf)@ + unmap_window_bytes(window_id),
{
    put_resource_request(buf, Opcode::UnmapWindow, window_id);
}

pub open spec fn free_gc_bytes(gc: GCId) -> Seq<u8> {
    resource_request_bytes(60, gc)
}

pub fn free_gc(buf: &mut Vec<u8>, gc_id: GCId)
    ensures
        final(buf)@ == old(buf)@ + free_gc_bytes(gc_id),
{
    put_resource_request(buf, Opcode::FreeGC, gc_id);
}

pub open spec fn close_font_bytes(font: FontId) -> Seq<u8> {
    resource_request_bytes(46, font)
}

pub fn close_font(buf: &mut Vec<u8>, font_id: FontId)
    ensures
        final(buf)@ == old(buf)@ + close_font_bytes(font_id),
{
    put_resource_request(buf, Opcode::CloseFont, font_id);
}

pub open spec fn list_extensions_bytes() -> Seq<u8> {
    seq![99u8, 0u8] + le2(1)
}

pub fn list_extensions(buf: &mut Vec<u8>)
    ensures
        final(buf)@ == old(buf)@ + list_extensions_bytes(),
{
    put_u8(buf, Opcode::ListExtensions.code());  // opcode
    put_u8(buf, 0);  // unused
    put_u16_le(buf, 1);  // request length
    assert(buf@ =~= old(buf)@ + list_extensions_bytes());
}

pub open spec fn list_fonts_bytes(max_names: u16, pattern: Seq<u8>) -> Seq<u8> {
    let n = pattern.len() as int;
    let p = spec_pad(n);
    seq![49u8, 0u8] + le2(((2 + (n + p) / 4) as u16)) + le2(max_names) + le2(n as u16) + pattern
        + zeros(p)
}

/// Asks for the names of up to `max_names` fonts matching `pattern`.
pub fn list_fonts(buf: &mut Vec<u8>, max_names: u16, pattern: &[u8])
    requires
        pattern@.len() <= 0xFFFF,
    ensures
        final(buf)@ == old(buf)@ + list_fonts_bytes(max_names, pattern@),
{
    let n = pattern.len();
    let p = pad(n);
    put_u8(buf, Opcode::ListFonts.code());  // opcode
    put_u8(buf, 0);  // unused
    put_u16_le(buf, (2 + (n + p) / 4) as u16);  // request length
    put_u16_le(buf, max_names);  // max-names
    put_u16_le(buf, n as u16);  // length of pattern
    put_bytes(buf, pattern);  // pattern
    put_zeros(buf, p);
    assert(buf@ =~= old(buf)@ + list_fonts_bytes(max_names, pattern@));
}

pub open spec fn query_extension_bytes(name: Seq<u8>) -> Seq<u8> {
    let n = name.len() as int;
    let p = spec_pad(n);
    seq![98u8, 0u8] + le2(((2 + (n + p) / 4) as u16)) + le2(n as u16) + le2(0) + name + zeros(p)
}

pub fn query_extension(buf: &mut Vec<u8>, extension_name: &[u8])
    requires
        extension_name@.len() <= 0xFFFF,
    ensures
        final(buf)@ == old(buf)@ + query_extension_bytes(extension_name@),
{
    let n = extension_name.len();
    let p = pad(n);
    put_u8(buf, Opcode::QueryExtension.code());  // opcode
    put_u8(buf, 0);  // unused
    put_u16_le(buf, (2 + (n + p) / 4) as u16);  // request length
    put_u16_le(buf, n as u16);  // length of name
    put_u16_le(buf, 0);  // unused
    put_bytes(buf, extension_name);
    put_zeros(buf, p);
    assert(buf@ =~= old(buf)@ + query_extension_bytes(extension_name@));
}

pub open spec fn open_font_bytes(font_id: FontId, name: Seq<u8>) -> Seq<u8> {
    let n = name.len() as int;
    let p = spec_pad(n);
    seq![45u8, 0u8] + le2(((3 + (n + p) / 4) as u16)) + le4(font_id) + le2(n as u16) + le2(0)
        + name + zeros(p)
}

/// Opens the font named `name` under a freshly allocated id, which is
/// embedded in the request and returned.
pub fn open_font(buf: &mut Vec<u8>, id_generator: &mut IdGenerator, name: &[u8]) -> (r: FontId)
    requires
        old(id_generator).wf(),
        !old(id_generator).spec_exhausted(),
        name@.len() <= 0xFFFF,
    ensures
        final(id_generator).wf(),
        final(id_generator).base == old(id_generator).base,
        final(id_generator).max == old(id_generator).max,
        final(id_generator).inc == old(id_generator).inc,
        final(id_generator).last == old(id_generator).last + old(id_generator).inc,
        r == (final(id_generator).last | final(id_generator).base),
        final(buf)@ == old(buf)@ + open_font_bytes(r, name@),
{
    let font_id = match id_generator.next() {
        Some(id) => id,
        None => unreached(),
    };
    let n = name.len();
    let p = pad(n);
    put_u8(buf, Opcode::OpenFont.code());  // opcode
    put_u8(buf, 0);  // unused
    put_u16_le(buf, (3 + (n + p) / 4) as u16);  // request length
    put_u32_le(buf, font_id);  // font id
    put_u16_le(buf, n as u16);  // length of name
    put_u16_le(buf, 0);  // unused
    put_bytes(buf, name);  // name of font
    put_zeros(buf, p);
    assert(buf@ =~= old(buf)@ + open_font_bytes(font_id, name@));
    font_id
}

pub open spec fn image_text_8_bytes(
    drawable: u32,
    gc: GCId,
    x: u16,
    y: u16,
    text: Seq<u8>,
) -> Seq<u8> {
    let n = text.len() as int;
    let p = spec_pad(n);
    seq![76u8, n as u8] + le2(((4 + (n + p) / 4) as u16)) + le4(drawable) + le4(gc) + le2(x)
        + le2(y) + text + zeros(p)
}

/// Draws `text` (at most 255 bytes) at `(x, y)` of `drawable` with `gc`.
pub fn image_text_8(buf: &mut Vec<u8>, window_id: u32, gc_id: GCId, x: u16, y: u16, text: &[u8])
    requires
        text@.len() <= 255,
    ensures
        final(buf)@ == old(buf)@ + image_text_8_bytes(window_id, gc_id, x, y, text@),
{
    let n = text.len();
    let p = pad(n);
    put_u8(buf, Opcode::ImageText8.code());  // opcode
    put_u8(buf, n as u8);  // length of string
    put_u16_le(buf, (4 + (n + p) / 4) as u16);  // request length
    put_u32_le(buf, window_id);  // drawable
    put_u32_le(buf, gc_id);  // graphics context
    put_u16_le(buf, x);  // x
    put_u16_le(buf, y);  // y
    put_bytes(buf, text);
    put_zeros(buf, p);
    assert(buf@ =~= old(buf)@ + image_text_8_bytes(window_id, gc_id, x, y, text@));
}

pub open spec fn create_window_bytes(
    wid: WindowId,
    parent: WindowId,
    depth: u8,
    x: i16,
    y: i16,
    width: u16,
    height: u16,
    border_width: u16,
    class: u16,
    visual: VisualId,
    mask: u32,
    values: Seq<u32>,
) -> Seq<u8> {
    seq![1u8, depth] + le2((8 + values.len()) as u16) + le4(wid) + le4(parent) + le2(x as u16)
        + le2(y as u16) + le2(width) + le2(height) + le2(border_width) + le2(class) + le4(visual)
        + le4(mask) + le4_concat(values)
}

/// Encodes a CreateWindow request under a freshly allocated window id,
/// which is embedded in the request and returned. The attribute values
/// follow the mask in canonical ascending bit order, as `ValueList`
/// construction guarantees.
pub fn create_window_request(
    buf: &mut Vec<u8>,
    id_generator: &mut IdGenerator,
    parent: WindowId,
    depth: u8,
    x: i16,
    y: i16,
    width: u16,
    height: u16,
    border_width: u16,
    class: u16,
    visual: VisualId,
    values: &ValueList,
) -> (r: WindowId)
    requires
        old(id_generator).wf(),
        !old(id_generator).spec_exhausted(),
        values.wf(),
    ensures
        final(id_generator).wf(),
        final(id_generator).base == old(id_generator).base,
        final(id_generator).max == old(id_generator).max,
        final(id_generator).inc == old(id_generator).inc,
        final(id_generator).last == old(id_generator).last + old(id_generator).inc,
        r == (final(id_generator).last | final(id_generator).base),
        final(buf)@ == old(buf)@ + create_window_bytes(
            r,
            parent,
            depth,
            x,
            y,
            width,
            height,
            border_width,
            class,
            visual,
            values.mask,
            values.values@,
        ),
{
    proof {
        lemma_popcount_le_32(values.mask);
    }
    let wid = match id_generator.next() {
        Some(id) => id,
        None => unreached(),
    };
    put_u8(buf, Opcode::CreateWindow.code());  // opcode
    put_u8(buf, depth);  // depth; 0 means copy from parent
    put_u16_le(buf, 8 + values.values.len() as u16);  // request length
    put_u32_le(buf, wid);  // wid
    put_u32_le(buf, parent);  // parent
    put_i16_le(buf, x);  // x
    put_i16_le(buf, y);  // y
    put_u16_le(buf, width);  // width
    put_u16_le(buf, height);  // height
    put_u16_le(buf, border_width);  // border-width
    put_u16_le(buf, class);  // class
    put_u32_le(buf, visual);  // visual id
    put_u32_le(buf, values.mask);  // bitmask
    put_value_words(buf, &values.values);
    proof {
        assert(buf@ =~= old(buf)@ + create_window_bytes(
            wid,
            parent,
            depth,
            x,
            y,
            width,
            height,
            border_width,
            class,
            visual,
            values.mask,
            values.values@,
        ));
    }
    wid
}

pub open spec fn create_gc_bytes(
    cid: GCId,
    drawable: u32,
    mask: u32,
    values: Seq<u32>,
) -> Seq<u8> {
    seq![55u8, 0u8] + le2((4 + values.len()) as u16) + le4(cid) + le4(drawable) + le4(mask)
        + le4_concat(values)
}

/// Encodes a CreateGC request for `drawable` under a freshly allocated
/// graphics-context id, which is embedded in the request and returned.
pub fn create_gc(
    buf: &mut Vec<u8>,
    id_generator: &mut IdGenerator,
    drawable: u32,
    values: &ValueList,
) -> (r: GCId)
    requires
        old(id_generator).wf(),
        !old(id_generator).spec_exhausted(),
        values.wf(),
    ensures
        final(id_generator).wf(),
        final(id_generator).base == old(id_generator).base,
        final(id_generator).max == old(id_generator).max,
        final(id_generator).inc == old(id_generator).inc,
        final(id_generator).last == old(id_generator).last + old(id_generator).inc,
        r == (final(id_generator).last | final(id_generator).base),
        final(buf)@ == old(buf)@ + create_gc_bytes(r, drawable, values.mask, values.values@),
{
    proof {
        lemma_popcount_le_32(values.mask);
    }
    let cid = match id_generator.next() {
        Some(id) => id,
        None => unreached(),
    };
    put_u8(buf, Opcode::CreateGC.code());  // opcode
    put_u8(buf, 0);  // unused
    put_u16_le(buf, 4 + values.values.len() as u16);  // request length
    put_u32_le(buf, cid);  // cid
    put_u32_le(buf, drawable);  // drawable
    put_u32_le(buf, values.mask);  // bitmask
    put_value_words(buf, &values.values);
    proof {
        assert(buf@ =~= old(buf)@ + create_gc_bytes(cid, drawable, values.mask, values.values@));
    }
    cid
}

/// Appends each value as four little-endian bytes, in order.
fn put_value_words(buf: &mut Vec<u8>, values: &Vec<u32>)
    ensures
        final(buf)@ == old(buf)@ + le4_concat(values@),
{
    let mut k: usize = 0;
    assert(old(buf)@ + le4_concat(values@.take(0)) =~= old(buf)@);
    while k < values.len()
        invariant
            k <= values@.len(),
            buf@ == old(buf)@ + le4_concat(values@.take(k as int)),
        decreases values@.len() - k,
    {
        put_u32_le(buf, values[k]);
        proof {
            assert(values@.take(k + 1).drop_last() =~= values@.take(k as int));
            assert(buf@ =~= old(buf)@ + le4_concat(values@.take(k + 1)));
        }
        k = k + 1;
    }
    assert(values@.take(values@.len() as int) =~= values@);
}

/// One change a ConfigureWindow request may carry.
#[derive(Copy, Clone, Debug, PartialEq, Eq, Structural)]
pub enum ConfigureWindowCommands {
    X(i16),
    Y(i16),
    Width(u16),
    Height(u16),
    BorderWidth(u16),
    Sibling(WindowId),
    StackMode(StackMode),
}

impl ConfigureWindowCommands {
    /// The value-mask bit this command selects.
    pub open spec fn spec_bit(self) -> u16 {
        match self {
            ConfigureWindowCommands::X(..) => 0x0001,
            ConfigureWindowCommands::Y(..) => 0x0002,
            ConfigureWindowCommands::Width(..) => 0x0004,
            ConfigureWindowCommands::Height(..) => 0x0008,
            ConfigureWindowCommands::BorderWidth(..) => 0x0010,
            ConfigureWindowCommands::Sibling(..) => 0x0020,
            ConfigureWindowCommands::StackMode(..) => 0x0040,
        }
    }

    pub fn bit(&self) -> (r: u16)
        ensures
            r == self.spec_bit(),
    {
        match *self {
            ConfigureWindowCommands::X(..) => 0x0001,
            ConfigureWindowCommands::Y(..) => 0x0002,
            ConfigureWindowCommands::Width(..) => 0x0004,
            ConfigureWindowCommands::Height(..) => 0x0008,
            ConfigureWindowCommands::BorderWidth(..) => 0x0010,
            ConfigureWindowCommands::Sibling(..) => 0x0020,
            ConfigureWindowCommands::StackMode(..) => 0x0040,
        }
    }

    /// The four bytes this command contributes to the value list.
    pub open spec fn spec_value_word(self) -> Seq<u8> {
        match self {
            ConfigureWindowCommands::X(v) => le4((v as u16) as u32),
            ConfigureWindowCommands::Y(v) => le4((v as u16) as u32),
            ConfigureWindowCommands::Width(v) => le4(v as u32),
            ConfigureWindowCommands::Height(v) => le4(v as u32),
            ConfigureWindowCommands::BorderWidth(v) => le4(v as u32),
            ConfigureWindowCommands::Sibling(w) => le4(w),
            ConfigureWindowCommands::StackMode(m) => le4(m.spec_code() as u32),
        }
    }

    fn put_value_word(&self, buf: &mut Vec<u8>)
        ensures
            final(buf)@ == old(buf)@ + self.spec_value_word(),
    {
        match *self {
            ConfigureWindowCommands::X(v) => put_u32_le(buf, (v as u16) as u32),
            ConfigureWindowCommands::Y(v) => put_u32_le(buf, (v as u16) as u32),
            ConfigureWindowCommands::Width(v) => put_u32_le(buf, v as u32),
            ConfigureWindowCommands::Height(v) => put_u32_le(buf, v as u32),
            ConfigureWindowCommands::BorderWidth(v) => put_u32_le(buf, v as u32),
            ConfigureWindowCommands::Sibling(w) => put_u32_le(buf, w),
            ConfigureWindowCommands::StackMode(m) => put_u32_le(buf, m.code() as u32),
        }
    }
}

/// The value-mask: the OR of every command's bit.
pub open spec fn cmd_mask(cmds: Seq<ConfigureWindowCommands>) -> u16
    decreases cmds.len(),
{
    if cmds.len() == 0 {
        0
    } else {
        cmd_mask(cmds.drop_last()) | cmds.last().spec_bit()
    }
}

/// The value list: each command's four bytes, in order.
pub open spec fn cmd_words(cmds: Seq<ConfigureWindowCommands>) -> Seq<u8>
    decreases cmds.len(),
{
    if cmds.len() == 0 {
        Seq::empty()
    } else {
        cmd_words(cmds.drop_last()) + cmds.last().spec_value_word()
    }
}

/// The protocol's canonical order: values must appear in strictly
/// ascending order of their mask bits.
pub open spec fn cmds_ascending(cmds: Seq<ConfigureWindowCommands>) -> bool {
    forall|i: int, j: int|
        0 <= i < j < cmds.len() ==> cmds[i].spec_bit() < cmds[j].spec_bit()
}

pub open spec fn configure_window_bytes(
    wid: WindowId,
    cmds: Seq<ConfigureWindowCommands>,
) -> Seq<u8> {
    seq![12u8, 0u8] + le2((3 + cmds.len()) as u16) + le4(wid) + le2(cmd_mask(cmds)) + le2(0)
        + cmd_words(cmds)
}

/// Encodes a ConfigureWindow request. The commands must be given in
/// strictly ascending bit order — the canonical order the server
/// demands; as the seven bits are distinct, no more than seven commands
/// can be so ordered.
pub fn configure_window(
    buf: &mut Vec<u8>,
    window_id: WindowId,
    commands: &[ConfigureWindowCommands],
)
    requires
        cmds_ascending(commands@),
        commands@.len() <= 7,
    ensures
        final(buf)@ == old(buf)@ + configure_window_bytes(window_id, commands@),
{
    let n = commands.len();
    let mut mask: u16 = 0;
    let mut k: usize = 0;
    while k < n
        invariant
            k <= commands@.len() == n,
            mask == cmd_mask(commands@.take(k as int)),
        decreases n - k,
    {
        mask = mask | commands[k].bit();
        proof {
            assert(commands@.take(k + 1).drop_last() =~= commands@.take(k as int));
        }
        k = k + 1;
    }
    assert(commands@.take(n as int) =~= commands@);
    put_u8(buf, Opcode::ConfigureWindow.code());  // opcode
    put_u8(buf, 0);  // unused
    put_u16_le(buf, 3 + n as u16);  // request length
    put_u32_le(buf, window_id);
    put_u16_le(buf, mask);  // value-mask
    put_u16_le(buf, 0);  // unused
    let ghost before_words = buf@;
    assert(before_words + cmd_words(commands@.take(0)) =~= before_words);
    let mut k2: usize = 0;
    while k2 < n
        invariant
            k2 <= commands@.len() == n,
            buf@ == before_words + cmd_words(commands@.take(k2 as int)),
        decreases n - k2,
    {
        commands[k2].put_value_word(buf);
        proof {
            assert(commands@.take(k2 + 1).drop_last() =~= commands@.take(k2 as int));
            assert(buf@ =~= before_words + cmd_words(commands@.take(k2 + 1)));
        }
        k2 = k2 + 1;
    }
    proof {
        assert(commands@.take(n as int) =~= commands@);
        assert(buf@ =~= old(buf)@ + configure_window_bytes(window_id, commands@));
    }
}

proof fn lemma_adjacent_ascending(s: Seq<ConfigureWindowCommands>, i: int, j: int)
    requires
        forall|k: int| 0 <= k < s.len() - 1 ==> #[trigger] s[k].spec_bit() < s[k + 1].spec_bit(),
        0 <= i < j < s.len(),
    ensures
        s[i].spec_bit() < s[j].spec_bit(),
    decreases j - i,
{
    if j > i + 1 {
        lemma_adjacent_ascending(s, i, j - 1);
    }
}

/// Run-time check for `configure_window`'s ordering demand: whether the
/// commands stand in strictly ascending bit order.
pub fn commands_are_ascending(commands: &[ConfigureWindowCommands]) -> (r: bool)
    ensures
        r == cmds_ascending(commands@),
{
    let n = commands.len();
    let mut k: usize = 1;
    while k < n
        invariant
            1 <= k,
            n == commands@.len(),
            forall|i: int| 0 <= i < k - 1 ==> #[trigger] commands@[i].spec_bit() < commands@[i
                + 1].spec_bit(),
        decreases n - k,
    {
        if commands[k - 1].bit() >= commands[k].bit() {
            assert(!cmds_ascending(commands@));
            return false;
        }
        k = k + 1;
    }
    proof {
        if commands@.len() > 1 {
            assert forall|i: int, j: int| 0 <= i < j < commands@.len() implies commands@[i
                ].spec_bit() < commands@[j].spec_bit() by {
                lemma_adjacent_ascending(commands@, i, j);
            }
        }
    }
    true
}

/// Law: re-decoding the header fields of an encoded CreateWindow request
/// — opcode, length, window id, parent, and visual — gives back exactly
/// the values that were encoded.
pub proof fn lemma_create_window_round_trip(
    wid: WindowId,
    parent: WindowId,
    depth: u8,
    x: i16,
    y: i16,
    width: u16,
    height: u16,
    border_width: u16,
    class: u16,
    visual: VisualId,
    mask: u32,
    values: Seq<u32>,
)
    ensures
        ({
            let s = create_window_bytes(
                wid,
                parent,
                depth,
                x,
                y,
                width,
                height,
                border_width,
                class,
                visual,
                mask,
                values,
            );
            &&& s[0] == 1
            &&& u16_at(s, 2) == (8 + values.len()) as u16
            &&& u32_at(s, 4) == wid
            &&& u32_at(s, 8) == parent
            &&& u32_at(s, 24) == visual
        }),
{
    let s = create_window_bytes(
        wid,
        parent,
        depth,
        x,
        y,
        width,
        height,
        border_width,
        class,
        visual,
        mask,
        values,
    );
    let len_field = (8 + values.len()) as u16;
    assert(s[2] == le2(len_field)[0] && s[3] == le2(len_field)[1]);
    assert(s[4] == le4(wid)[0] && s[5] == le4(wid)[1] && s[6] == le4(wid)[2] && s[7] == le4(
        wid)[3]);
    assert(s[8] == le4(parent)[0] && s[9] == le4(parent)[1] && s[10] == le4(parent)[2] && s[11]
        == le4(parent)[3]);
    assert(s[24] == le4(visual)[0] && s[25] == le4(visual)[1] && s[26] == le4(visual)[2]
        && s[27] == le4(visual)[3]);
    crate::wire::lemma_le2_round_trip(len_field);
    lemma_le4_round_trip(wid);
    lemma_le4_round_trip(parent);
    lemma_le4_round_trip(visual);
}

} // verus!
