//! Decoding of the server's connection-setup reply into a structured
//! capability set.
//!
//! The reply's 8-byte fixed header declares how many further 4-byte
//! units follow; the caller accumulates socket reads until that many
//! bytes are buffered (`handshake_total_len`), then decodes. Every
//! nested list — pixel formats, screens, each screen's depths, each
//! depth's visuals — announces its element count immediately before its
//! elements, and decoding consumes exactly that many, so a count can
//! never disagree with the structures actually read; running out of
//! declared bytes instead is the fatal `Truncated` error. Every enum
//! byte outside its defined range is a fatal decode error, never a
//! silently-ignored default.

use vstd::prelude::*;
use crate::ids::IdGenerator;
use crate::protocol::BackingStore;
use crate::protocol::BitmapFormatBitOrder;
use crate::protocol::Class;
use crate::protocol::EventMask;
use crate::protocol::EVENT_MASK_ALL;
use crate::protocol::ImageByteOrder;
use crate::wire::copy_range;
use crate::wire::read_u16_le;
use crate::wire::read_u32_le;
use crate::wire::read_u8;
use crate::wire::spec_pad;
use crate::wire::pad;
use crate::wire::u16_at;
use crate::wire::u32_at;

verus! {

/// A pixel format the server supports.
#[derive(Copy, Clone, Debug, PartialEq, Eq, Structural)]
pub struct Format {
    pub depth: u8,
    pub bits_per_pixel: u8,
    pub scanline_pad: u8,
}

/// One visual type offered under a depth.
#[derive(Copy, Clone, Debug, PartialEq, Eq, Structural)]
pub struct VisualType {
    pub visual_id: u32,
    pub class: Class,
    pub bits_per_rgb_value: u8,
    pub colormap_entries: u16,
    pub red_mask: u32,
    pub green_mask: u32,
    pub blue_mask: u32,
}

/// One color depth a screen allows, with its visual types.
#[derive(Clone, Debug, PartialEq, Eq)]
pub struct Depth {
    pub depth: u8,
    pub visuals: Vec<VisualType>,
}

#[verifier::ext_equal]
pub ghost struct DepthView {
    pub depth: u8,
    pub visuals: Seq<VisualType>,
}

impl View for Depth {
    type V = DepthView;

    open spec fn view(&self) -> DepthView {
        DepthView { depth: self.depth, visuals: self.visuals@ }
    }
}

/// One screen the server announces.
#[derive(Clone, Debug, PartialEq, Eq)]
pub struct Screen {
    pub window: u32,
    pub default_colormap: u32,
    pub white_pixel: u32,
    pub black_pixel: u32,
    pub current_input_masks: EventMask,
    pub width_pixels: u16,
    pub height_pixels: u16,
    pub width_mm: u16,
    pub height_mm: u16,
    pub min_installed_maps: u16,
    pub max_installed_maps: u16,
    pub root_visual: u32,
    pub backing_stores: BackingStore,
    pub save_unders: bool,
    pub root_depth: u8,
    pub allowed_depths: Vec<Depth>,
}

#[verifier::ext_equal]
pub ghost struct ScreenView {
    pub window: u32,
    pub default_colormap: u32,
    pub white_pixel: u32,
    pub black_pixel: u32,
    pub current_input_masks: EventMask,
    pub width_pixels: u16,
    pub height_pixels: u16,
    pub width_mm: u16,
    pub height_mm: u16,
    pub min_installed_maps: u16,
    pub max_installed_maps: u16,
    pub root_visual: u32,
    pub backing_stores: BackingStore,
    pub save_unders: bool,
    pub root_depth: u8,
    pub allowed_depths: Seq<DepthView>,
}

pub open spec fn depths_view(v: Seq<Depth>) -> Seq<DepthView> {
    v.map_values(|d: Depth| d@)
}

impl View for Screen {
    type V = ScreenView;

    open spec fn view(&self) -> ScreenView {
        ScreenView {
            window: self.window,
            default_colormap: self.default_colormap,
            white_pixel: self.white_pixel,
            black_pixel: self.black_pixel,
            current_input_masks: self.current_input_masks,
            width_pixels: self.width_pixels,
            height_pixels: self.height_pixels,
            width_mm: self.width_mm,
            height_mm: self.height_mm,
            min_installed_maps: self.min_installed_maps,
            max_installed_maps: self.max_installed_maps,
            root_visual: self.root_visual,
            backing_stores: self.backing_stores,
            save_unders: self.save_unders,
            root_depth: self.root_depth,
            allowed_depths: depths_view(self.allowed_depths@),
        }
    }
}

pub open spec fn screens_view(v: Seq<Screen>) -> Seq<ScreenView> {
    v.map_values(|s: Screen| s@)
}

/// The server's capability announcement.
#[derive(Clone, Debug, PartialEq, Eq)]
pub struct HandshakeInfo {
    pub protocol_major_version: u16,
    pub protocol_minor_version: u16,
    pub release_number: u32,
    pub resource_id_base: u32,
    pub resource_id_mask: u32,
    pub motion_buffer_size: u32,
    pub maximum_request_length: u16,
    pub image_byte_order: ImageByteOrder,
    pub bitmap_format_bit_order: BitmapFormatBitOrder,
    pub bitmap_format_scanline_unit: u8,
    pub bitmap_format_scanline_pad: u8,
    pub min_keycode: u8,
    pub max_keycode: u8,
    pub vendor: Vec<u8>,
    pub formats: Vec<Format>,
    pub screens: Vec<Screen>,
}

#[verifier::ext_equal]
pub ghost struct HandshakeView {
    pub protocol_major_version: u16,
    pub protocol_minor_version: u16,
    pub release_number: u32,
    pub resource_id_base: u32,
    pub resource_id_mask: u32,
    pub motion_buffer_size: u32,
    pub maximum_request_length: u16,
    pub image_byte_order: ImageByteOrder,
    pub bitmap_format_bit_order: BitmapFormatBitOrder,
    pub bitmap_format_scanline_unit: u8,
    pub bitmap_format_scanline_pad: u8,
    pub min_keycode: u8,
    pub max_keycode: u8,
    pub vendor: Seq<u8>,
    pub formats: Seq<Format>,
    pub screens: Seq<ScreenView>,
}

impl View for HandshakeInfo {
    type V = HandshakeView;

    open spec fn view(&self) -> HandshakeView {
        HandshakeView {
            protocol_major_version: self.protocol_major_version,
            protocol_minor_version: self.protocol_minor_version,
            release_number: self.release_number,
            resource_id_base: self.resource_id_base,
            resource_id_mask: self.resource_id_mask,
            motion_buffer_size: self.motion_buffer_size,
            maximum_request_length: self.maximum_request_length,
            image_byte_order: self.image_byte_order,
            bitmap_format_bit_order: self.bitmap_format_bit_order,
            bitmap_format_scanline_unit: self.bitmap_format_scanline_unit,
            bitmap_format_scanline_pad: self.bitmap_format_scanline_pad,
            min_keycode: self.min_keycode,
            max_keycode: self.max_keycode,
            vendor: self.vendor@,
            formats: self.formats@,
            screens: screens_view(self.screens@),
        }
    }
}

/// Why a handshake reply failed to decode. `Incomplete` asks the caller
/// to read more bytes; every other variant is connection-fatal.
#[derive(Copy, Clone, Debug, PartialEq, Eq, Structural)]
pub enum HandshakeError {
    /// Fewer bytes buffered than the fixed header, or than the total
    /// length the header declares: read again and retry.
    Incomplete,
    /// Status byte 0: the server refused the connection.
    Refused,
    /// Status byte 2: an authentication exchange is required, which
    /// this client does not support.
    AuthRequired,
    /// A status byte outside the defined set.
    UnknownStatus(u8),
    /// The declared data length ran out inside a structure.
    Truncated,
    BadImageByteOrder(u8),
    BadBitmapBitOrder(u8),
    /// A screen's input-event mask sets undefined bits.
    BadEventMask(u32),
    BadBackingStore(u8),
    BadSaveUnders(u8),
    BadVisualClass(u8),
}

/// One visual type: 24 bytes.
pub open spec fn sp_visual(t: Seq<u8>, off: int) -> Result<(VisualType, int), HandshakeError> {
    if off + 24 > t.len() {
        Err(HandshakeError::Truncated)
    } else {
        match Class::spec_from_u8(t[off + 4]) {
            None => Err(HandshakeError::BadVisualClass(t[off + 4])),
            Some(class) => Ok(
                (
                    VisualType {
                        visual_id: u32_at(t, off),
                        class,
                        bits_per_rgb_value: t[off + 5],
                        colormap_entries: u16_at(t, off + 6),
                        red_mask: u32_at(t, off + 8),
                        green_mask: u32_at(t, off + 12),
                        blue_mask: u32_at(t, off + 16),
                    },
                    off + 24,
                ),
            ),
        }
    }
}

pub open spec fn sp_visuals(t: Seq<u8>, off: int, count: nat) -> Result<
    (Seq<VisualType>, int),
    HandshakeError,
>
    decreases count,
{
    if count == 0 {
        Ok((Seq::empty(), off))
    } else {
        match sp_visual(t, off) {
            Err(e) => Err(e),
            Ok(v) => match sp_visuals(t, v.1, (count - 1) as nat) {
                Err(e) => Err(e),
                Ok(p) => Ok((seq![v.0] + p.0, p.1)),
            },
        }
    }
}

/// One depth: an 8-byte header declaring its visual count, then exactly
/// that many visuals.
pub open spec fn sp_depth(t: Seq<u8>, off: int) -> Result<(DepthView, int), HandshakeError> {
    if off + 8 > t.len() {
        Err(HandshakeError::Truncated)
    } else {
        match sp_visuals(t, off + 8, u16_at(t, off + 2) as nat) {
            Err(e) => Err(e),
            Ok(p) => Ok((DepthView { depth: t[off], visuals: p.0 }, p.1)),
        }
    }
}

pub open spec fn sp_depths(t: Seq<u8>, off: int, count: nat) -> Result<
    (Seq<DepthView>, int),
    HandshakeError,
>
    decreases count,
{
    if count == 0 {
        Ok((Seq::empty(), off))
    } else {
        match sp_depth(t, off) {
            Err(e) => Err(e),
            Ok(d) => match sp_depths(t, d.1, (count - 1) as nat) {
                Err(e) => Err(e),
                Ok(p) => Ok((seq![d.0] + p.0, p.1)),
            },
        }
    }
}

/// One screen: a 40-byte header declaring its depth count, then exactly
/// that many depths.
pub open spec fn sp_screen(t: Seq<u8>, off: int) -> Result<(ScreenView, int), HandshakeError> {
    if off + 40 > t.len() {
        Err(HandshakeError::Truncated)
    } else if u32_at(t, off + 16) > EVENT_MASK_ALL {
        Err(HandshakeError::BadEventMask(u32_at(t, off + 16)))
    } else {
        match BackingStore::spec_from_u8(t[off + 36]) {
            None => Err(HandshakeError::BadBackingStore(t[off + 36])),
            Some(backing_stores) => if t[off + 37] > 1 {
                Err(HandshakeError::BadSaveUnders(t[off + 37]))
            } else {
                match sp_depths(t, off + 40, t[off + 39] as nat) {
                    Err(e) => Err(e),
                    Ok(p) => Ok(
                        (
                            ScreenView {
                                window: u32_at(t, off),
                                default_colormap: u32_at(t, off + 4),
                                white_pixel: u32_at(t, off + 8),
                                black_pixel: u32_at(t, off + 12),
                                current_input_masks: EventMask { bits: u32_at(t, off + 16) },
                                width_pixels: u16_at(t, off + 20),
                                height_pixels: u16_at(t, off + 22),
                                width_mm: u16_at(t, off + 24),
                                height_mm: u16_at(t, off + 26),
                                min_installed_maps: u16_at(t, off + 28),
                                max_installed_maps: u16_at(t, off + 30),
                                root_visual: u32_at(t, off + 32),
                                backing_stores,
                                save_unders: t[off + 37] == 1,
                                root_depth: t[off + 38],
                                allowed_depths: p.0,
                            },
                            p.1,
                        ),
                    ),
                }
            },
        }
    }
}

pub open spec fn sp_screens(t: Seq<u8>, off: int, count: nat) -> Result<
    (Seq<ScreenView>, int),
    HandshakeError,
>
    decreases count,
{
    if count == 0 {
        Ok((Seq::empty(), off))
    } else {
        match sp_screen(t, off) {
            Err(e) => Err(e),
            Ok(s) => match sp_screens(t, s.1, (count - 1) as nat) {
                Err(e) => Err(e),
                Ok(p) => Ok((seq![s.0] + p.0, p.1)),
            },
        }
    }
}

/// One pixel format: 8 bytes.
pub open spec fn sp_formats(t: Seq<u8>, off: int, count: nat) -> Result<
    (Seq<Format>, int),
    HandshakeError,
>
    decreases count,
{
    if count == 0 {
        Ok((Seq::empty(), off))
    } else if off + 8 > t.len() {
        Err(HandshakeError::Truncated)
    } else {
        match sp_formats(t, off + 8, (count - 1) as nat) {
            Err(e) => Err(e),
            Ok(p) => Ok(
                (
                    seq![
                        Format {
                            depth: t[off],
                            bits_per_pixel: t[off + 1],
                            scanline_pad: t[off + 2],
                        },
                    ] + p.0,
                    p.1,
                ),
            ),
        }
    }
}

/// The success body, over the declared region `t` only: fixed fields,
/// vendor string with its padding, the pixel-format list, then the
/// screen list.
pub open spec fn sp_body(t: Seq<u8>) -> Result<(HandshakeView, int), HandshakeError> {
    if t.len() < 40 {
        Err(HandshakeError::Truncated)
    } else {
        match ImageByteOrder::spec_from_u8(t[30]) {
            None => Err(HandshakeError::BadImageByteOrder(t[30])),
            Some(image_byte_order) => match BitmapFormatBitOrder::spec_from_u8(t[31]) {
                None => Err(HandshakeError::BadBitmapBitOrder(t[31])),
                Some(bitmap_format_bit_order) => {
                    let v = u16_at(t, 24) as int;
                    let fmt_start = 40 + v + spec_pad(v);
                    if fmt_start > t.len() {
                        Err(HandshakeError::Truncated)
                    } else {
                        match sp_formats(t, fmt_start, t[29] as nat) {
                            Err(e) => Err(e),
                            Ok(pf) => match sp_screens(t, pf.1, t[28] as nat) {
                                Err(e) => Err(e),
                                Ok(ps) => Ok(
                                    (
                                        HandshakeView {
                                            protocol_major_version: u16_at(t, 2),
                                            protocol_minor_version: u16_at(t, 4),
                                            release_number: u32_at(t, 8),
                                            resource_id_base: u32_at(t, 12),
                                            resource_id_mask: u32_at(t, 16),
                                            motion_buffer_size: u32_at(t, 20),
                                            maximum_request_length: u16_at(t, 26),
                                            image_byte_order,
                                            bitmap_format_bit_order,
                                            bitmap_format_scanline_unit: t[32],
                                            bitmap_format_scanline_pad: t[33],
                                            min_keycode: t[34],
                                            max_keycode: t[35],
                                            vendor: t.subrange(40, 40 + v),
                                            formats: pf.0,
                                            screens: ps.0,
                                        },
                                        ps.1,
                                    ),
                                ),
                            },
                        }
                    }
                },
            },
        }
    }
}

/// What decoding the accumulated buffer yields: the capability set and
/// the number of bytes its encoding occupied, or the decode error.
pub open spec fn sp_handshake(s: Seq<u8>) -> Result<(HandshakeView, int), HandshakeError> {
    if s.len() < 8 {
        Err(HandshakeError::Incomplete)
    } else if s[0] == 0 {
        Err(HandshakeError::Refused)
    } else if s[0] == 2 {
        Err(HandshakeError::AuthRequired)
    } else if s[0] != 1 {
        Err(HandshakeError::UnknownStatus(s[0]))
    } else {
        let total = 8 + 4 * (u16_at(s, 6) as int);
        if s.len() < total {
            Err(HandshakeError::Incomplete)
        } else {
            sp_body(s.take(total))
        }
    }
}

fn parse_visual(t: &[u8], off: usize) -> (r: Result<(VisualType, usize), HandshakeError>)
    requires
        off <= t@.len(),
    ensures
        match r {
            Ok(p) => sp_visual(t@, off as int) == Ok::<_, HandshakeError>((p.0, p.1 as int))
                && p.1 <= t@.len(),
            Err(e) => sp_visual(t@, off as int) == Err::<(VisualType, int), _>(e),
        },
{
    if t.len() - off < 24 {
        return Err(HandshakeError::Truncated);
    }
    let class_byte = read_u8(t, off + 4);
    let class = match Class::from_u8(class_byte) {
        Some(c) => c,
        None => {
            return Err(HandshakeError::BadVisualClass(class_byte));
        },
    };
    Ok(
        (
            VisualType {
                visual_id: read_u32_le(t, off),
                class,
                bits_per_rgb_value: read_u8(t, off + 5),
                colormap_entries: read_u16_le(t, off + 6),
                red_mask: read_u32_le(t, off + 8),
                green_mask: read_u32_le(t, off + 12),
                blue_mask: read_u32_le(t, off + 16),
            },
            off + 24,
        ),
    )
}

fn parse_visuals(t: &[u8], off: usize, count: u16) -> (r: Result<
    (Vec<VisualType>, usize),
    HandshakeError,
>)
    requires
        off <= t@.len(),
    ensures
        match r {
            Ok(p) => sp_visuals(t@, off as int, count as nat) == Ok::<_, HandshakeError>(
                (p.0@, p.1 as int),
            ) && p.1 <= t@.len(),
            Err(e) => sp_visuals(t@, off as int, count as nat) == Err::<
                (Seq<VisualType>, int),
                _,
            >(e),
        },
{
    let mut acc: Vec<VisualType> = Vec::new();
    let mut pos: usize = off;
    let mut rem: u16 = count;
    proof {
        let whole = sp_visuals(t@, off as int, count as nat);
        if whole is Ok {
            assert(acc@ + whole->Ok_0.0 =~= whole->Ok_0.0);
        }
    }
    while rem > 0
        invariant
            pos <= t@.len(),
            match sp_visuals(t@, pos as int, rem as nat) {
                Ok(p) => sp_visuals(t@, off as int, count as nat) == Ok::<_, HandshakeError>(
                    (acc@ + p.0, p.1),
                ),
                Err(e) => sp_visuals(t@, off as int, count as nat) == Err::<
                    (Seq<VisualType>, int),
                    _,
                >(e),
            },
        decreases rem,
    {
        match parse_visual(t, pos) {
            Err(e) => {
                return Err(e);
            },
            Ok(p) => {
                proof {
                    let rest = sp_visuals(t@, p.1 as int, (rem - 1) as nat);
                    if rest is Ok {
                        assert(acc@.push(p.0) + rest->Ok_0.0 =~= acc@ + (seq![p.0]
                            + rest->Ok_0.0));
                    }
                }
                acc.push(p.0);
                pos = p.1;
                rem = rem - 1;
            },
        }
    }
    proof {
        assert(acc@ + Seq::<VisualType>::empty() =~= acc@);
    }
    Ok((acc, pos))
}

fn parse_depth(t: &[u8], off: usize) -> (r: Result<(Depth, usize), HandshakeError>)
    requires
        off <= t@.len(),
    ensures
        match r {
            Ok(p) => sp_depth(t@, off as int) == Ok::<_, HandshakeError>((p.0@, p.1 as int))
                && p.1 <= t@.len(),
            Err(e) => sp_depth(t@, off as int) == Err::<(DepthView, int), _>(e),
        },
{
    if t.len() - off < 8 {
        return Err(HandshakeError::Truncated);
    }
    let number_visual_types = read_u16_le(t, off + 2);
    match parse_visuals(t, off + 8, number_visual_types) {
        Err(e) => Err(e),
        Ok(p) => Ok((Depth { depth: read_u8(t, off), visuals: p.0 }, p.1)),
    }
}

fn parse_depths(t: &[u8], off: usize, count: u8) -> (r: Result<(Vec<Depth>, usize), HandshakeError>)
    requires
        off <= t@.len(),
    ensures
        match r {
            Ok(p) => sp_depths(t@, off as int, count as nat) == Ok::<_, HandshakeError>(
                (depths_view(p.0@), p.1 as int),
            ) && p.1 <= t@.len(),
            Err(e) => sp_depths(t@, off as int, count as nat) == Err::<
                (Seq<DepthView>, int),
                _,
            >(e),
        },
{
    let mut acc: Vec<Depth> = Vec::new();
    let mut pos: usize = off;
    let mut rem: u8 = count;
    proof {
        let whole = sp_depths(t@, off as int, count as nat);
        if whole is Ok {
            assert(depths_view(acc@) + whole->Ok_0.0 =~= whole->Ok_0.0);
        }
    }
    while rem > 0
        invariant
            pos <= t@.len(),
            match sp_depths(t@, pos as int, rem as nat) {
                Ok(p) => sp_depths(t@, off as int, count as nat) == Ok::<_, HandshakeError>(
                    (depths_view(acc@) + p.0, p.1),
                ),
                Err(e) => sp_depths(t@, off as int, count as nat) == Err::<
                    (Seq<DepthView>, int),
                    _,
                >(e),
            },
        decreases rem,
    {
        match parse_depth(t, pos) {
            Err(e) => {
                return Err(e);
            },
            Ok(p) => {
                let ghost pre = acc@;
                let ghost d_view = p.0@;
                acc.push(p.0);
                proof {
                    assert(depths_view(acc@) =~= depths_view(pre).push(d_view));
                    let rest = sp_depths(t@, p.1 as int, (rem - 1) as nat);
                    if rest is Ok {
                        assert(depths_view(pre).push(d_view) + rest->Ok_0.0 =~= depths_view(pre)
                            + (seq![d_view] + rest->Ok_0.0));
                    }
                }
                pos = p.1;
                rem = rem - 1;
            },
        }
    }
    proof {
        assert(depths_view(acc@) + Seq::<DepthView>::empty() =~= depths_view(acc@));
    }
    Ok((acc, pos))
}

fn parse_screen(t: &[u8], off: usize) -> (r: Result<(Screen, usize), HandshakeError>)
    requires
        off <= t@.len(),
    ensures
        match r {
            Ok(p) => sp_screen(t@, off as int) == Ok::<_, HandshakeError>((p.0@, p.1 as int))
                && p.1 <= t@.len(),
            Err(e) => sp_screen(t@, off as int) == Err::<(ScreenView, int), _>(e),
        },
{
    if t.len() - off < 40 {
        return Err(HandshakeError::Truncated);
    }
    let raw_mask = read_u32_le(t, off + 16);
    let current_input_masks = match EventMask::from_bits(raw_mask) {
        Some(m) => m,
        None => {
            return Err(HandshakeError::BadEventMask(raw_mask));
        },
    };
    let backing_byte = read_u8(t, off + 36);
    let backing_stores = match BackingStore::from_u8(backing_byte) {
        Some(b) => b,
        None => {
            return Err(HandshakeError::BadBackingStore(backing_byte));
        },
    };
    let save_unders_byte = read_u8(t, off + 37);
    if save_unders_byte > 1 {
        return Err(HandshakeError::BadSaveUnders(save_unders_byte));
    }
    let number_depths = read_u8(t, off + 39);
    match parse_depths(t, off + 40, number_depths) {
        Err(e) => Err(e),
        Ok(p) => Ok(
            (
                Screen {
                    window: read_u32_le(t, off),
                    default_colormap: read_u32_le(t, off + 4),
                    white_pixel: read_u32_le(t, off + 8),
                    black_pixel: read_u32_le(t, off + 12),
                    current_input_masks,
                    width_pixels: read_u16_le(t, off + 20),
                    height_pixels: read_u16_le(t, off + 22),
                    width_mm: read_u16_le(t, off + 24),
                    height_mm: read_u16_le(t, off + 26),
                    min_installed_maps: read_u16_le(t, off + 28),
                    max_installed_maps: read_u16_le(t, off + 30),
                    root_visual: read_u32_le(t, off + 32),
                    backing_stores,
                    save_unders: save_unders_byte == 1,
                    root_depth: read_u8(t, off + 38),
                    allowed_depths: p.0,
                },
                p.1,
            ),
        ),
    }
}

fn parse_screens(t: &[u8], off: usize, count: u8) -> (r: Result<
    (Vec<Screen>, usize),
    HandshakeError,
>)
    requires
        off <= t@.len(),
    ensures
        match r {
            Ok(p) => sp_screens(t@, off as int, count as nat) == Ok::<_, HandshakeError>(
                (screens_view(p.0@), p.1 as int),
            ) && p.1 <= t@.len(),
            Err(e) => sp_screens(t@, off as int, count as nat) == Err::<
                (Seq<ScreenView>, int),
                _,
            >(e),
        },
{
    let mut acc: Vec<Screen> = Vec::new();
    let mut pos: usize = off;
    let mut rem: u8 = count;
    proof {
        let whole = sp_screens(t@, off as int, count as nat);
        if whole is Ok {
            assert(screens_view(acc@) + whole->Ok_0.0 =~= whole->Ok_0.0);
        }
    }
    while rem > 0
        invariant
            pos <= t@.len(),
            match sp_screens(t@, pos as int, rem as nat) {
                Ok(p) => sp_screens(t@, off as int, count as nat) == Ok::<_, HandshakeError>(
                    (screens_view(acc@) + p.0, p.1),
                ),
                Err(e) => sp_screens(t@, off as int, count as nat) == Err::<
                    (Seq<ScreenView>, int),
                    _,
                >(e),
            },
        decreases rem,
    {
        match parse_screen(t, pos) {
            Err(e) => {
                return Err(e);
            },
            Ok(p) => {
                let ghost pre = acc@;
                let ghost s_view = p.0@;
                acc.push(p.0);
                proof {
                    assert(screens_view(acc@) =~= screens_view(pre).push(s_view));
                    let rest = sp_screens(t@, p.1 as int, (rem - 1) as nat);
                    if rest is Ok {
                        assert(screens_view(pre).push(s_view) + rest->Ok_0.0 =~= screens_view(
                            pre,
                        ) + (seq![s_view] + rest->Ok_0.0));
                    }
                }
                pos = p.1;
                rem = rem - 1;
            },
        }
    }
    proof {
        assert(screens_view(acc@) + Seq::<ScreenView>::empty() =~= screens_view(acc@));
    }
    Ok((acc, pos))
}

fn parse_formats(t: &[u8], off: usize, count: u8) -> (r: Result<
    (Vec<Format>, usize),
    HandshakeError,
>)
    requires
        off <= t@.len(),
    ensures
        match r {
            Ok(p) => sp_formats(t@, off as int, count as nat) == Ok::<_, HandshakeError>(
                (p.0@, p.1 as int),
            ) && p.1 <= t@.len(),
            Err(e) => sp_formats(t@, off as int, count as nat) == Err::<(Seq<Format>, int), _>(
                e,
            ),
        },
{
    let mut acc: Vec<Format> = Vec::new();
    let mut pos: usize = off;
    let mut rem: u8 = count;
    proof {
        let whole = sp_formats(t@, off as int, count as nat);
        if whole is Ok {
            assert(acc@ + whole->Ok_0.0 =~= whole->Ok_0.0);
        }
    }
    while rem > 0
        invariant
            pos <= t@.len(),
            match sp_formats(t@, pos as int, rem as nat) {
                Ok(p) => sp_formats(t@, off as int, count as nat) == Ok::<_, HandshakeError>(
                    (acc@ + p.0, p.1),
                ),
                Err(e) => sp_formats(t@, off as int, count as nat) == Err::<
                    (Seq<Format>, int),
                    _,
                >(e),
            },
        decreases rem,
    {
        if t.len() - pos < 8 {
            return Err(HandshakeError::Truncated);
        }
        let f = Format {
            depth: read_u8(t, pos),
            bits_per_pixel: read_u8(t, pos + 1),
            scanline_pad: read_u8(t, pos + 2),
        };
        proof {
            let rest = sp_formats(t@, pos + 8, (rem - 1) as nat);
            if rest is Ok {
                assert(acc@.push(f) + rest->Ok_0.0 =~= acc@ + (seq![f] + rest->Ok_0.0));
            }
        }
        acc.push(f);
        pos = pos + 8;
        rem = rem - 1;
    }
    proof {
        assert(acc@ + Seq::<Format>::empty() =~= acc@);
    }
    Ok((acc, pos))
}

fn parse_body(t: &[u8]) -> (r: Result<(HandshakeInfo, usize), HandshakeError>)
    ensures
        match r {
            Ok(p) => sp_body(t@) == Ok::<_, HandshakeError>((p.0@, p.1 as int)),
            Err(e) => sp_body(t@) == Err::<(HandshakeView, int), _>(e),
        },
{
    let n = t.len();
    if n < 40 {
        return Err(HandshakeError::Truncated);
    }
    let ibo_byte = read_u8(t, 30);
    let image_byte_order = match ImageByteOrder::from_u8(ibo_byte) {
        Some(x) => x,
        None => {
            return Err(HandshakeError::BadImageByteOrder(ibo_byte));
        },
    };
    let bbo_byte = read_u8(t, 31);
    let bitmap_format_bit_order = match BitmapFormatBitOrder::from_u8(bbo_byte) {
        Some(x) => x,
        None => {
            return Err(HandshakeError::BadBitmapBitOrder(bbo_byte));
        },
    };
    let v = read_u16_le(t, 24) as usize;
    let p = pad(v);
    if v + p > n - 40 {
        return Err(HandshakeError::Truncated);
    }
    let vendor = copy_range(t, 40, v);
    match parse_formats(t, 40 + v + p, read_u8(t, 29)) {
        Err(e) => Err(e),
        Ok(pf) => match parse_screens(t, pf.1, read_u8(t, 28)) {
            Err(e) => Err(e),
            Ok(ps) => {
                let info = HandshakeInfo {
                    protocol_major_version: read_u16_le(t, 2),
                    protocol_minor_version: read_u16_le(t, 4),
                    release_number: read_u32_le(t, 8),
                    resource_id_base: read_u32_le(t, 12),
                    resource_id_mask: read_u32_le(t, 16),
                    motion_buffer_size: read_u32_le(t, 20),
                    maximum_request_length: read_u16_le(t, 26),
                    image_byte_order,
                    bitmap_format_bit_order,
                    bitmap_format_scanline_unit: read_u8(t, 32),
                    bitmap_format_scanline_pad: read_u8(t, 33),
                    min_keycode: read_u8(t, 34),
                    max_keycode: read_u8(t, 35),
                    vendor,
                    formats: pf.0,
                    screens: ps.0,
                };
                proof {
                    assert(info@ =~= sp_body(t@)->Ok_0.0);
                }
                Ok((info, ps.1))
            },
        },
    }
}

/// The spec-level value of a decode result.
pub open spec fn decode_result_view(r: Result<(HandshakeInfo, usize), HandshakeError>) -> Result<
    (HandshakeView, int),
    HandshakeError,
> {
    match r {
        Ok(p) => Ok((p.0@, p.1 as int)),
        Err(e) => Err(e),
    }
}

/// Total bytes the handshake reply occupies — the 8-byte fixed header
/// plus the additional data length it declares, in 4-byte units — or
/// `None` while fewer than 8 bytes are buffered. The caller keeps
/// reading until this many bytes have accumulated.
pub fn handshake_total_len(buf: &[u8]) -> (r: Option<usize>)
    ensures
        buf@.len() >= 8 ==> r == Some((8 + 4 * (u16_at(buf@, 6) as int)) as usize),
        buf@.len() < 8 ==> r is None,
{
    if buf.len() < 8 {
        None
    } else {
        Some(8 + 4 * (read_u16_le(buf, 6) as usize))
    }
}

/// Decodes the server's connection-setup reply from the accumulated
/// bytes: the capability set and how many bytes its encoding consumed.
/// `Incomplete` means more socket reads are needed; every other error
/// is connection-fatal.
pub fn decode_handshake(buf: &[u8]) -> (r: Result<(HandshakeInfo, usize), HandshakeError>)
    ensures
        decode_result_view(r) == sp_handshake(buf@),
{
    let n = buf.len();
    if n < 8 {
        return Err(HandshakeError::Incomplete);
    }
    let status = read_u8(buf, 0);
    if status == 0 {
        return Err(HandshakeError::Refused);
    }
    if status == 2 {
        return Err(HandshakeError::AuthRequired);
    }
    if status != 1 {
        return Err(HandshakeError::UnknownStatus(status));
    }
    let additional = read_u16_le(buf, 6) as usize;
    let total = 8 + 4 * additional;
    if n < total {
        return Err(HandshakeError::Incomplete);
    }
    let t = vstd::slice::slice_subrange(buf, 0, total);
    proof {
        assert(t@ =~= buf@.take(total as int));
    }
    parse_body(t)
}

/// Law: handshake decoding is deterministic. Any two results that
/// satisfy `decode_handshake`'s contract for equal byte sequences are
/// structurally equal, down to every screen, depth, and visual.
pub proof fn lemma_handshake_decode_deterministic(
    s1: Seq<u8>,
    s2: Seq<u8>,
    r1: Result<(HandshakeInfo, usize), HandshakeError>,
    r2: Result<(HandshakeInfo, usize), HandshakeError>,
)
    requires
        s1 == s2,
        decode_result_view(r1) == sp_handshake(s1),
        decode_result_view(r2) == sp_handshake(s2),
    ensures
        decode_result_view(r1) == decode_result_view(r2),
{
}

/// Long-lived connection parameters: the resource-id space the server
/// granted. Read-only after the handshake.
#[derive(Copy, Clone, Debug, PartialEq, Eq, Structural)]
pub struct Connection {
    pub resource_id_base: u32,
    pub resource_id_mask: u32,
}

impl HandshakeInfo {
    pub fn connection(&self) -> (r: Connection)
        ensures
            r.resource_id_base == self.resource_id_base,
            r.resource_id_mask == self.resource_id_mask,
    {
        Connection {
            resource_id_base: self.resource_id_base,
            resource_id_mask: self.resource_id_mask,
        }
    }
}

impl Connection {
    /// An allocator over this connection's id space, or `None` when the
    /// server granted a zero mask, which has no allocatable bits.
    pub fn id_generator(&self) -> (r: Option<IdGenerator>)
        ensures
            match r {
                Some(g) => self.resource_id_mask != 0 && g.wf() && g.base
                    == self.resource_id_base && g.max == self.resource_id_mask && g.last == 0
                    && !g.spec_exhausted(),
                None => self.resource_id_mask == 0,
            },
    {
        if self.resource_id_mask == 0 {
            None
        } else {
            Some(IdGenerator::new(self.resource_id_base, self.resource_id_mask))
        }
    }
}

} // verus!
