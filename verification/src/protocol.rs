//! Closed enumerations of the protocol: request opcodes, error codes,
//! event subtypes, visual classes, and the event-selection bitmask.

use vstd::prelude::*;

verus! {

/// Major opcodes of the core requests this client encodes or recognises.
#[derive(Copy, Clone, Debug, PartialEq, Eq, Structural)]
pub enum Opcode {
    CreateWindow,
    ChangeWindowAttributes,
    GetWindowAttributes,
    DestroyWindow,
    MapWindow,
    MapSubwindows,
    UnmapWindow,
    UnmapSubwindows,
    ConfigureWindow,
    CirculateWindow,
    GetGeometry,
    QueryTree,
    SetInputFocus,
    GetInputFocus,
    QueryKeymap,
    OpenFont,
    CloseFont,
    QueryFont,
    ListFonts,
    ListFontsWithInfo,
    CreatePixmap,
    FreePixmap,
    CreateGC,
    ChangeGC,
    CopyGC,
    FreeGC,
    ImageText8,
    ImageText16,
    QueryExtension,
    ListExtensions,
}

impl Opcode {
    /// The opcode byte written as the first byte of a request.
    pub open spec fn spec_code(self) -> u8 {
        match self {
            Opcode::CreateWindow => 1,
            Opcode::ChangeWindowAttributes => 2,
            Opcode::GetWindowAttributes => 3,
            Opcode::DestroyWindow => 4,
            Opcode::MapWindow => 8,
            Opcode::MapSubwindows => 9,
            Opcode::UnmapWindow => 10,
            Opcode::UnmapSubwindows => 11,
            Opcode::ConfigureWindow => 12,
            Opcode::CirculateWindow => 13,
            Opcode::GetGeometry => 14,
            Opcode::QueryTree => 15,
            Opcode::SetInputFocus => 42,
            Opcode::GetInputFocus => 43,
            Opcode::QueryKeymap => 44,
            Opcode::OpenFont => 45,
            Opcode::CloseFont => 46,
            Opcode::QueryFont => 47,
            Opcode::ListFonts => 49,
            Opcode::ListFontsWithInfo => 50,
            Opcode::CreatePixmap => 53,
            Opcode::FreePixmap => 54,
            Opcode::CreateGC => 55,
            Opcode::ChangeGC => 56,
            Opcode::CopyGC => 57,
            Opcode::FreeGC => 60,
            Opcode::ImageText8 => 76,
            Opcode::ImageText16 => 77,
            Opcode::QueryExtension => 98,
            Opcode::ListExtensions => 99,
        }
    }

    pub fn code(self) -> (r: u8)
        ensures
            r == self.spec_code(),
    {
        match self {
            Opcode::CreateWindow => 1,
            Opcode::ChangeWindowAttributes => 2,
            Opcode::GetWindowAttributes => 3,
            Opcode::DestroyWindow => 4,
            Opcode::MapWindow => 8,
            Opcode::MapSubwindows => 9,
            Opcode::UnmapWindow => 10,
            Opcode::UnmapSubwindows => 11,
            Opcode::ConfigureWindow => 12,
            Opcode::CirculateWindow => 13,
            Opcode::GetGeometry => 14,
            Opcode::QueryTree => 15,
            Opcode::SetInputFocus => 42,
            Opcode::GetInputFocus => 43,
            Opcode::QueryKeymap => 44,
            Opcode::OpenFont => 45,
            Opcode::CloseFont => 46,
            Opcode::QueryFont => 47,
            Opcode::ListFonts => 49,
            Opcode::ListFontsWithInfo => 50,
            Opcode::CreatePixmap => 53,
            Opcode::FreePixmap => 54,
            Opcode::CreateGC => 55,
            Opcode::ChangeGC => 56,
            Opcode::CopyGC => 57,
            Opcode::FreeGC => 60,
            Opcode::ImageText8 => 76,
            Opcode::ImageText16 => 77,
            Opcode::QueryExtension => 98,
            Opcode::ListExtensions => 99,
        }
    }

    /// The opcode named by a byte, if any.
    pub open spec fn spec_from_u8(x: u8) -> Option<Opcode> {
        match x {
            1u8 => Some(Opcode::CreateWindow),
            2u8 => Some(Opcode::ChangeWindowAttributes),
            3u8 => Some(Opcode::GetWindowAttributes),
            4u8 => Some(Opcode::DestroyWindow),
            8u8 => Some(Opcode::MapWindow),
            9u8 => Some(Opcode::MapSubwindows),
            10u8 => Some(Opcode::UnmapWindow),
            11u8 => Some(Opcode::UnmapSubwindows),
            12u8 => Some(Opcode::ConfigureWindow),
            13u8 => Some(Opcode::CirculateWindow),
            14u8 => Some(Opcode::GetGeometry),
            15u8 => Some(Opcode::QueryTree),
            42u8 => Some(Opcode::SetInputFocus),
            43u8 => Some(Opcode::GetInputFocus),
            44u8 => Some(Opcode::QueryKeymap),
            45u8 => Some(Opcode::OpenFont),
            46u8 => Some(Opcode::CloseFont),
            47u8 => Some(Opcode::QueryFont),
            49u8 => Some(Opcode::ListFonts),
            50u8 => Some(Opcode::ListFontsWithInfo),
            53u8 => Some(Opcode::CreatePixmap),
            54u8 => Some(Opcode::FreePixmap),
            55u8 => Some(Opcode::CreateGC),
            56u8 => Some(Opcode::ChangeGC),
            57u8 => Some(Opcode::CopyGC),
            60u8 => Some(Opcode::FreeGC),
            76u8 => Some(Opcode::ImageText8),
            77u8 => Some(Opcode::ImageText16),
            98u8 => Some(Opcode::QueryExtension),
            99u8 => Some(Opcode::ListExtensions),
            _ => None,
        }
    }

    pub fn from_u8(x: u8) -> (r: Option<Opcode>)
        ensures
            r == Opcode::spec_from_u8(x),
    {
        match x {
            1u8 => Some(Opcode::CreateWindow),
            2u8 => Some(Opcode::ChangeWindowAttributes),
            3u8 => Some(Opcode::GetWindowAttributes),
            4u8 => Some(Opcode::DestroyWindow),
            8u8 => Some(Opcode::MapWindow),
            9u8 => Some(Opcode::MapSubwindows),
            10u8 => Some(Opcode::UnmapWindow),
            11u8 => Some(Opcode::UnmapSubwindows),
            12u8 => Some(Opcode::ConfigureWindow),
            13u8 => Some(Opcode::CirculateWindow),
            14u8 => Some(Opcode::GetGeometry),
            15u8 => Some(Opcode::QueryTree),
            42u8 => Some(Opcode::SetInputFocus),
            43u8 => Some(Opcode::GetInputFocus),
            44u8 => Some(Opcode::QueryKeymap),
            45u8 => Some(Opcode::OpenFont),
            46u8 => Some(Opcode::CloseFont),
            47u8 => Some(Opcode::QueryFont),
            49u8 => Some(Opcode::ListFonts),
            50u8 => Some(Opcode::ListFontsWithInfo),
            53u8 => Some(Opcode::CreatePixmap),
            54u8 => Some(Opcode::FreePixmap),
            55u8 => Some(Opcode::CreateGC),
            56u8 => Some(Opcode::ChangeGC),
            57u8 => Some(Opcode::CopyGC),
            60u8 => Some(Opcode::FreeGC),
            76u8 => Some(Opcode::ImageText8),
            77u8 => Some(Opcode::ImageText16),
            98u8 => Some(Opcode::QueryExtension),
            99u8 => Some(Opcode::ListExtensions),
            _ => None,
        }
    }
}

/// The closed enumeration of error codes a server-sent error frame may carry.
#[derive(Copy, Clone, Debug, PartialEq, Eq, Structural)]
pub enum ErrorCode {
    Request,
    Value,
    Window,
    Pixmap,
    Atom,
    Cursor,
    Font,
    Match,
    Drawable,
    Access,
    Alloc,
    Colormap,
    GContext,
    IDChoice,
    Name,
    Length,
    Implementation,
}

impl ErrorCode {
    /// The error code named by a byte, if any.
    pub open spec fn spec_from_u8(x: u8) -> Option<ErrorCode> {
        match x {
            1u8 => Some(ErrorCode::Request),
            2u8 => Some(ErrorCode::Value),
            3u8 => Some(ErrorCode::Window),
            4u8 => Some(ErrorCode::Pixmap),
            5u8 => Some(ErrorCode::Atom),
            6u8 => Some(ErrorCode::Cursor),
            7u8 => Some(ErrorCode::Font),
            8u8 => Some(ErrorCode::Match),
            9u8 => Some(ErrorCode::Drawable),
            10u8 => Some(ErrorCode::Access),
            11u8 => Some(ErrorCode::Alloc),
            12u8 => Some(ErrorCode::Colormap),
            13u8 => Some(ErrorCode::GContext),
            14u8 => Some(ErrorCode::IDChoice),
            15u8 => Some(ErrorCode::Name),
            16u8 => Some(ErrorCode::Length),
            17u8 => Some(ErrorCode::Implementation),
            _ => None,
        }
    }

    pub fn from_u8(x: u8) -> (r: Option<ErrorCode>)
        ensures
            r == ErrorCode::spec_from_u8(x),
    {
        match x {
            1u8 => Some(ErrorCode::Request),
            2u8 => Some(ErrorCode::Value),
            3u8 => Some(ErrorCode::Window),
            4u8 => Some(ErrorCode::Pixmap),
            5u8 => Some(ErrorCode::Atom),
            6u8 => Some(ErrorCode::Cursor),
            7u8 => Some(ErrorCode::Font),
            8u8 => Some(ErrorCode::Match),
            9u8 => Some(ErrorCode::Drawable),
            10u8 => Some(ErrorCode::Access),
            11u8 => Some(ErrorCode::Alloc),
            12u8 => Some(ErrorCode::Colormap),
            13u8 => Some(ErrorCode::GContext),
            14u8 => Some(ErrorCode::IDChoice),
            15u8 => Some(ErrorCode::Name),
            16u8 => Some(ErrorCode::Length),
            17u8 => Some(ErrorCode::Implementation),
            _ => None,
        }
    }

    /// Whether the kind-specific 4-byte field of an error frame with this
    /// code holds a bad resource id or value. The remaining codes leave
    /// those four bytes unused, and decoding must not interpret them.
    pub open spec fn spec_has_value(self) -> bool {
        match self {
            ErrorCode::Value => true,
            ErrorCode::Window => true,
            ErrorCode::Pixmap => true,
            ErrorCode::Atom => true,
            ErrorCode::Cursor => true,
            ErrorCode::Font => true,
            ErrorCode::Drawable => true,
            ErrorCode::Colormap => true,
            ErrorCode::GContext => true,
            ErrorCode::IDChoice => true,
            ErrorCode::Request => false,
            ErrorCode::Match => false,
            ErrorCode::Access => false,
            ErrorCode::Alloc => false,
            ErrorCode::Name => false,
            ErrorCode::Length => false,
            ErrorCode::Implementation => false,
        }
    }

    pub fn has_value(self) -> (r: bool)
        ensures
            r == self.spec_has_value(),
    {
        match self {
            ErrorCode::Value => true,
            ErrorCode::Window => true,
            ErrorCode::Pixmap => true,
            ErrorCode::Atom => true,
            ErrorCode::Cursor => true,
            ErrorCode::Font => true,
            ErrorCode::Drawable => true,
            ErrorCode::Colormap => true,
            ErrorCode::GContext => true,
            ErrorCode::IDChoice => true,
            ErrorCode::Request => false,
            ErrorCode::Match => false,
            ErrorCode::Access => false,
            ErrorCode::Alloc => false,
            ErrorCode::Name => false,
            ErrorCode::Length => false,
            ErrorCode::Implementation => false,
        }
    }
}

/// Event subtypes, discriminated by the first byte of an event frame.
#[derive(Copy, Clone, Debug, PartialEq, Eq, Structural)]
pub enum EventKind {
    KeyPress,
    KeyRelease,
    ButtonPress,
    ButtonRelease,
    MotionNotify,
    EnterNotify,
    LeaveNotify,
    FocusIn,
    FocusOut,
    KeymapNotify,
    Expose,
    GraphicsExposure,
    NoExposure,
    VisibilityNotify,
    CreateNotify,
    DestroyNotify,
    UnmapNotify,
    MapNotify,
    MapRequest,
    SelectionRequest,
    SelectionNotify,
    ColormapNotify,
    ClientMessage,
    MappingNotify,
}

impl EventKind {
    /// The event subtype named by a frame's first byte, if any.
    pub open spec fn spec_from_u8(x: u8) -> Option<EventKind> {
        match x {
            2u8 => Some(EventKind::KeyPress),
            3u8 => Some(EventKind::KeyRelease),
            4u8 => Some(EventKind::ButtonPress),
            5u8 => Some(EventKind::ButtonRelease),
            6u8 => Some(EventKind::MotionNotify),
            7u8 => Some(EventKind::EnterNotify),
            8u8 => Some(EventKind::LeaveNotify),
            9u8 => Some(EventKind::FocusIn),
            10u8 => Some(EventKind::FocusOut),
            11u8 => Some(EventKind::KeymapNotify),
            12u8 => Some(EventKind::Expose),
            13u8 => Some(EventKind::GraphicsExposure),
            14u8 => Some(EventKind::NoExposure),
            15u8 => Some(EventKind::VisibilityNotify),
            16u8 => Some(EventKind::CreateNotify),
            17u8 => Some(EventKind::DestroyNotify),
            18u8 => Some(EventKind::UnmapNotify),
            19u8 => Some(EventKind::MapNotify),
            20u8 => Some(EventKind::MapRequest),
            30u8 => Some(EventKind::SelectionRequest),
            31u8 => Some(EventKind::SelectionNotify),
            32u8 => Some(EventKind::ColormapNotify),
            33u8 => Some(EventKind::ClientMessage),
            34u8 => Some(EventKind::MappingNotify),
            _ => None,
        }
    }

    pub fn from_u8(x: u8) -> (r: Option<EventKind>)
        ensures
            r == EventKind::spec_from_u8(x),
    {
        match x {
            2u8 => Some(EventKind::KeyPress),
            3u8 => Some(EventKind::KeyRelease),
            4u8 => Some(EventKind::ButtonPress),
            5u8 => Some(EventKind::ButtonRelease),
            6u8 => Some(EventKind::MotionNotify),
            7u8 => Some(EventKind::EnterNotify),
            8u8 => Some(EventKind::LeaveNotify),
            9u8 => Some(EventKind::FocusIn),
            10u8 => Some(EventKind::FocusOut),
            11u8 => Some(EventKind::KeymapNotify),
            12u8 => Some(EventKind::Expose),
            13u8 => Some(EventKind::GraphicsExposure),
            14u8 => Some(EventKind::NoExposure),
            15u8 => Some(EventKind::VisibilityNotify),
            16u8 => Some(EventKind::CreateNotify),
            17u8 => Some(EventKind::DestroyNotify),
            18u8 => Some(EventKind::UnmapNotify),
            19u8 => Some(EventKind::MapNotify),
            20u8 => Some(EventKind::MapRequest),
            30u8 => Some(EventKind::SelectionRequest),
            31u8 => Some(EventKind::SelectionNotify),
            32u8 => Some(EventKind::ColormapNotify),
            33u8 => Some(EventKind::ClientMessage),
            34u8 => Some(EventKind::MappingNotify),
            _ => None,
        }
    }
}

/// Image byte order announced in the handshake; only 0 and 1 are valid.
#[derive(Copy, Clone, Debug, PartialEq, Eq, Structural)]
pub enum ImageByteOrder {
    LSBFirst,
    MSBFirst,
}

impl ImageByteOrder {
    pub open spec fn spec_from_u8(x: u8) -> Option<ImageByteOrder> {
        match x {
            0u8 => Some(ImageByteOrder::LSBFirst),
            1u8 => Some(ImageByteOrder::MSBFirst),
            _ => None,
        }
    }

    pub fn from_u8(x: u8) -> (r: Option<ImageByteOrder>)
        ensures
            r == ImageByteOrder::spec_from_u8(x),
    {
        match x {
            0u8 => Some(ImageByteOrder::LSBFirst),
            1u8 => Some(ImageByteOrder::MSBFirst),
            _ => None,
        }
    }
}

/// Bitmap bit order announced in the handshake; only 0 and 1 are valid.
#[derive(Copy, Clone, Debug, PartialEq, Eq, Structural)]
pub enum BitmapFormatBitOrder {
    LeastSignificant,
    MostSignificant,
}

impl BitmapFormatBitOrder {
    pub open spec fn spec_from_u8(x: u8) -> Option<BitmapFormatBitOrder> {
        match x {
            0u8 => Some(BitmapFormatBitOrder::LeastSignificant),
            1u8 => Some(BitmapFormatBitOrder::MostSignificant),
            _ => None,
        }
    }

    pub fn from_u8(x: u8) -> (r: Option<BitmapFormatBitOrder>)
        ensures
            r == BitmapFormatBitOrder::spec_from_u8(x),
    {
        match x {
            0u8 => Some(BitmapFormatBitOrder::LeastSignificant),
            1u8 => Some(BitmapFormatBitOrder::MostSignificant),
            _ => None,
        }
    }
}

/// A screen's backing-store policy.
#[derive(Copy, Clone, Debug, PartialEq, Eq, Structural)]
pub enum BackingStore {
    Never,
    WhenMapped,
    Always,
}

impl BackingStore {
    pub open spec fn spec_from_u8(x: u8) -> Option<BackingStore> {
        match x {
            0u8 => Some(BackingStore::Never),
            1u8 => Some(BackingStore::WhenMapped),
            2u8 => Some(BackingStore::Always),
            _ => None,
        }
    }

    pub fn from_u8(x: u8) -> (r: Option<BackingStore>)
        ensures
            r == BackingStore::spec_from_u8(x),
    {
        match x {
            0u8 => Some(BackingStore::Never),
            1u8 => Some(BackingStore::WhenMapped),
            2u8 => Some(BackingStore::Always),
            _ => None,
        }
    }
}

/// The six classes of visual type a depth may offer.
#[derive(Copy, Clone, Debug, PartialEq, Eq, Structural)]
pub enum Class {
    StaticGray,
    GrayScale,
    StaticColor,
    PseudoColor,
    TrueColor,
    DirectColor,
}

impl Class {
    pub open spec fn spec_from_u8(x: u8) -> Option<Class> {
        match x {
            0u8 => Some(Class::StaticGray),
            1u8 => Some(Class::GrayScale),
            2u8 => Some(Class::StaticColor),
            3u8 => Some(Class::PseudoColor),
            4u8 => Some(Class::TrueColor),
            5u8 => Some(Class::DirectColor),
            _ => None,
        }
    }

    pub fn from_u8(x: u8) -> (r: Option<Class>)
        ensures
            r == Class::spec_from_u8(x),
    {
        match x {
            0u8 => Some(Class::StaticGray),
            1u8 => Some(Class::GrayScale),
            2u8 => Some(Class::StaticColor),
            3u8 => Some(Class::PseudoColor),
            4u8 => Some(Class::TrueColor),
            5u8 => Some(Class::DirectColor),
            _ => None,
        }
    }
}

/// The kind of mapping change a MappingNotify event reports.
#[derive(Copy, Clone, Debug, PartialEq, Eq, Structural)]
pub enum MappingNotifyRequest {
    Modifier,
    Keyboard,
    Pointer,
}

impl MappingNotifyRequest {
    pub open spec fn spec_from_u8(x: u8) -> Option<MappingNotifyRequest> {
        match x {
            0u8 => Some(MappingNotifyRequest::Modifier),
            1u8 => Some(MappingNotifyRequest::Keyboard),
            2u8 => Some(MappingNotifyRequest::Pointer),
            _ => None,
        }
    }

    pub fn from_u8(x: u8) -> (r: Option<MappingNotifyRequest>)
        ensures
            r == MappingNotifyRequest::spec_from_u8(x),
    {
        match x {
            0u8 => Some(MappingNotifyRequest::Modifier),
            1u8 => Some(MappingNotifyRequest::Keyboard),
            2u8 => Some(MappingNotifyRequest::Pointer),
            _ => None,
        }
    }
}

/// Stacking order choices for ConfigureWindow.
#[derive(Copy, Clone, Debug, PartialEq, Eq, Structural)]
pub enum StackMode {
    Above,
    Below,
    TopIf,
    BottomIf,
    Opposite,
}

impl StackMode {
    pub open spec fn spec_code(self) -> u8 {
        match self {
            StackMode::Above => 0,
            StackMode::Below => 1,
            StackMode::TopIf => 2,
            StackMode::BottomIf => 3,
            StackMode::Opposite => 4,
        }
    }

    pub fn code(self) -> (r: u8)
        ensures
            r == self.spec_code(),
    {
        match self {
            StackMode::Above => 0,
            StackMode::Below => 1,
            StackMode::TopIf => 2,
            StackMode::BottomIf => 3,
            StackMode::Opposite => 4,
        }
    }
}

/// Input-event categories a client may select on a window. Each selects
/// one bit of the 25-bit event mask.
#[derive(Copy, Clone, Debug, PartialEq, Eq, Structural)]
pub enum Event {
    KeyPress,
    KeyRelease,
    ButtonPress,
    ButtonRelease,
    EnterWindow,
    LeaveWindow,
    PointerMotion,
    PointerMotionHint,
    Button1Motion,
    Button2Motion,
    Button3Motion,
    Button4Motion,
    Button5Motion,
    ButtonMotion,
    KeymapState,
    Exposure,
    VisibilityChange,
    StructureNotify,
    ResizeRedirect,
    SubstructureNotify,
    SubstructureRedirect,
    FocusChange,
    PropertyChange,
    ColormapChange,
    OwnerGrabButton,
}

/// Every defined event-mask bit: the low 25 bits.
pub const EVENT_MASK_ALL: u32 = 0x01FF_FFFF;

impl Event {
    /// The single mask bit this event category selects.
    pub open spec fn spec_bit(self) -> u32 {
        match self {
            Event::KeyPress => 0x0000_0001,
            Event::KeyRelease => 0x0000_0002,
            Event::ButtonPress => 0x0000_0004,
            Event::ButtonRelease => 0x0000_0008,
            Event::EnterWindow => 0x0000_0010,
            Event::LeaveWindow => 0x0000_0020,
            Event::PointerMotion => 0x0000_0040,
            Event::PointerMotionHint => 0x0000_0080,
            Event::Button1Motion => 0x0000_0100,
            Event::Button2Motion => 0x0000_0200,
            Event::Button3Motion => 0x0000_0400,
            Event::Button4Motion => 0x0000_0800,
            Event::Button5Motion => 0x0000_1000,
            Event::ButtonMotion => 0x0000_2000,
            Event::KeymapState => 0x0000_4000,
            Event::Exposure => 0x0000_8000,
            Event::VisibilityChange => 0x0001_0000,
            Event::StructureNotify => 0x0002_0000,
            Event::ResizeRedirect => 0x0004_0000,
            Event::SubstructureNotify => 0x0008_0000,
            Event::SubstructureRedirect => 0x0010_0000,
            Event::FocusChange => 0x0020_0000,
            Event::PropertyChange => 0x0040_0000,
            Event::ColormapChange => 0x0080_0000,
            Event::OwnerGrabButton => 0x0100_0000,
        }
    }

    pub fn bit(self) -> (r: u32)
        ensures
            r == self.spec_bit(),
            r <= EVENT_MASK_ALL,
    {
        match self {
            Event::KeyPress => 0x0000_0001,
            Event::KeyRelease => 0x0000_0002,
            Event::ButtonPress => 0x0000_0004,
            Event::ButtonRelease => 0x0000_0008,
            Event::EnterWindow => 0x0000_0010,
            Event::LeaveWindow => 0x0000_0020,
            Event::PointerMotion => 0x0000_0040,
            Event::PointerMotionHint => 0x0000_0080,
            Event::Button1Motion => 0x0000_0100,
            Event::Button2Motion => 0x0000_0200,
            Event::Button3Motion => 0x0000_0400,
            Event::Button4Motion => 0x0000_0800,
            Event::Button5Motion => 0x0000_1000,
            Event::ButtonMotion => 0x0000_2000,
            Event::KeymapState => 0x0000_4000,
            Event::Exposure => 0x0000_8000,
            Event::VisibilityChange => 0x0001_0000,
            Event::StructureNotify => 0x0002_0000,
            Event::ResizeRedirect => 0x0004_0000,
            Event::SubstructureNotify => 0x0008_0000,
            Event::SubstructureRedirect => 0x0010_0000,
            Event::FocusChange => 0x0020_0000,
            Event::PropertyChange => 0x0040_0000,
            Event::ColormapChange => 0x0080_0000,
            Event::OwnerGrabButton => 0x0100_0000,
        }
    }
}

/// A set of selected input events, stored as its wire bitmask.
/// Well-formed masks set only the 25 defined bits.
#[derive(Copy, Clone, Debug, PartialEq, Eq, Structural)]
pub struct EventMask {
    pub bits: u32,
}

impl EventMask {
    /// Only defined event bits are set.
    pub open spec fn wf(self) -> bool {
        self.bits <= EVENT_MASK_ALL
    }

    /// The empty selection.
    pub fn none() -> (r: EventMask)
        ensures
            r.bits == 0,
            r.wf(),
    {
        EventMask { bits: 0 }
    }

    /// The selection with `e`'s bit also set.
    pub fn with(self, e: Event) -> (r: EventMask)
        ensures
            r.bits == self.bits | e.spec_bit(),
            self.wf() ==> r.wf(),
    {
        let b = e.bit();
        proof {
            let s = self.bits;
            assert(s <= 0x01FF_FFFFu32 && b <= 0x01FF_FFFFu32 ==> (s | b) <= 0x01FF_FFFFu32)
                by (bit_vector);
        }
        EventMask { bits: self.bits | b }
    }

    /// Validates a raw mask from the wire: accepted exactly when it sets
    /// no undefined bit.
    pub fn from_bits(bits: u32) -> (r: Option<EventMask>)
        ensures
            bits <= EVENT_MASK_ALL ==> r == Some(EventMask { bits }),
            bits > EVENT_MASK_ALL ==> r is None,
    {
        if bits <= EVENT_MASK_ALL {
            Some(EventMask { bits })
        } else {
            None
        }
    }

    /// Whether `e`'s bit is set.
    pub fn contains(self, e: Event) -> (r: bool)
        ensures
            r == (self.bits & e.spec_bit() != 0),
    {
        self.bits & e.bit() != 0
    }
}

} // verus!
