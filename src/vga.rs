//! Colours and attribute bytes of the VGA text mode.
use vstd::prelude::*;

verus! {

/// The error a colour number out of range is refused with.
pub const INVALID_COLOUR: &'static str = "Given value does not match an enum variant.";

/// The sixteen VGA foreground colours.
#[derive(Debug, Clone, Copy, PartialEq, Eq, Structural, PartialOrd, Ord, Hash)]
pub enum VgaFgColour {
    Black,
    Blue,
    Green,
    Cyan,
    Red,
    Magenta,
    Brown,
    LightGray,
    DarkGray,
    LightBlue,
    LightGreen,
    LightCyan,
    LightRed,
    Pink,
    Yellow,
    White,
}

impl VgaFgColour {
    /// The colour's number in the attribute byte.
    pub open spec fn value_spec(self) -> u8 {
        match self {
            VgaFgColour::Black => 0,
            VgaFgColour::Blue => 1,
            VgaFgColour::Green => 2,
            VgaFgColour::Cyan => 3,
            VgaFgColour::Red => 4,
            VgaFgColour::Magenta => 5,
            VgaFgColour::Brown => 6,
            VgaFgColour::LightGray => 7,
            VgaFgColour::DarkGray => 8,
            VgaFgColour::LightBlue => 9,
            VgaFgColour::LightGreen => 10,
            VgaFgColour::LightCyan => 11,
            VgaFgColour::LightRed => 12,
            VgaFgColour::Pink => 13,
            VgaFgColour::Yellow => 14,
            VgaFgColour::White => 15,
        }
    }

    /// The colour numbered `value`, if there is one.
    pub open spec fn from_value_spec(value: u8) -> Option<VgaFgColour> {
        if value == 0 {
            Some(VgaFgColour::Black)
        } else if value == 1 {
            Some(VgaFgColour::Blue)
        } else if value == 2 {
            Some(VgaFgColour::Green)
        } else if value == 3 {
            Some(VgaFgColour::Cyan)
        } else if value == 4 {
            Some(VgaFgColour::Red)
        } else if value == 5 {
            Some(VgaFgColour::Magenta)
        } else if value == 6 {
            Some(VgaFgColour::Brown)
        } else if value == 7 {
            Some(VgaFgColour::LightGray)
        } else if value == 8 {
            Some(VgaFgColour::DarkGray)
        } else if value == 9 {
            Some(VgaFgColour::LightBlue)
        } else if value == 10 {
            Some(VgaFgColour::LightGreen)
        } else if value == 11 {
            Some(VgaFgColour::LightCyan)
        } else if value == 12 {
            Some(VgaFgColour::LightRed)
        } else if value == 13 {
            Some(VgaFgColour::Pink)
        } else if value == 14 {
            Some(VgaFgColour::Yellow)
        } else if value == 15 {
            Some(VgaFgColour::White)
        } else {
            None
        }
    }

    /// The colour's number in the attribute byte.
    pub fn value(self) -> (r: u8)
        ensures
            r == self.value_spec(),
            r < 16,
    {
        match self {
            VgaFgColour::Black => 0,
            VgaFgColour::Blue => 1,
            VgaFgColour::Green => 2,
            VgaFgColour::Cyan => 3,
            VgaFgColour::Red => 4,
            VgaFgColour::Magenta => 5,
            VgaFgColour::Brown => 6,
            VgaFgColour::LightGray => 7,
            VgaFgColour::DarkGray => 8,
            VgaFgColour::LightBlue => 9,
            VgaFgColour::LightGreen => 10,
            VgaFgColour::LightCyan => 11,
            VgaFgColour::LightRed => 12,
            VgaFgColour::Pink => 13,
            VgaFgColour::Yellow => 14,
            VgaFgColour::White => 15,
        }
    }

    fn from_value(value: u8) -> (r: Option<VgaFgColour>)
        ensures
            r == VgaFgColour::from_value_spec(value),
    {
        match value {
            0 => Some(VgaFgColour::Black),
            1 => Some(VgaFgColour::Blue),
            2 => Some(VgaFgColour::Green),
            3 => Some(VgaFgColour::Cyan),
            4 => Some(VgaFgColour::Red),
            5 => Some(VgaFgColour::Magenta),
            6 => Some(VgaFgColour::Brown),
            7 => Some(VgaFgColour::LightGray),
            8 => Some(VgaFgColour::DarkGray),
            9 => Some(VgaFgColour::LightBlue),
            10 => Some(VgaFgColour::LightGreen),
            11 => Some(VgaFgColour::LightCyan),
            12 => Some(VgaFgColour::LightRed),
            13 => Some(VgaFgColour::Pink),
            14 => Some(VgaFgColour::Yellow),
            15 => Some(VgaFgColour::White),
            _ => None,
        }
    }
}

impl From<VgaFgColour> for u8 {
    fn from(value: VgaFgColour) -> (r: u8) {
        value.value()
    }
}

impl vstd::std_specs::convert::FromSpecImpl<VgaFgColour> for u8 {
    open spec fn obeys_from_spec() -> bool {
        true
    }

    open spec fn from_spec(v: VgaFgColour) -> u8 {
        v.value_spec()
    }
}

impl TryFrom<u8> for VgaFgColour {
    type Error = &'static str;

    fn try_from(value: u8) -> (r: Result<VgaFgColour, &'static str>) {
        match VgaFgColour::from_value(value) {
            Some(c) => Ok(c),
            None => Err(INVALID_COLOUR),
        }
    }
}

impl vstd::std_specs::convert::TryFromSpecImpl<u8> for VgaFgColour {
    open spec fn obeys_try_from_spec() -> bool {
        true
    }

    open spec fn try_from_spec(v: u8) -> Result<VgaFgColour, &'static str> {
        match VgaFgColour::from_value_spec(v) {
            Some(c) => Ok(c),
            None => Err(INVALID_COLOUR),
        }
    }
}

impl Default for VgaFgColour {
    fn default() -> (r: VgaFgColour)
        ensures
            r == VgaFgColour::White,
    {
        VgaFgColour::White
    }
}

/// The eight VGA background colours.
#[derive(Debug, Clone, Copy, PartialEq, Eq, Structural, PartialOrd, Ord, Hash)]
pub enum VgaBgColour {
    Black,
    Blue,
    Green,
    Cyan,
    Red,
    Magenta,
    Brown,
    LightGray,
}

impl VgaBgColour {
    /// The colour's number in the attribute byte.
    pub open spec fn value_spec(self) -> u8 {
        match self {
            VgaBgColour::Black => 0,
            VgaBgColour::Blue => 1,
            VgaBgColour::Green => 2,
            VgaBgColour::Cyan => 3,
            VgaBgColour::Red => 4,
            VgaBgColour::Magenta => 5,
            VgaBgColour::Brown => 6,
            VgaBgColour::LightGray => 7,
        }
    }

    /// The colour numbered `value`, if there is one.
    pub open spec fn from_value_spec(value: u8) -> Option<VgaBgColour> {
        if value == 0 {
            Some(VgaBgColour::Black)
        } else if value == 1 {
            Some(VgaBgColour::Blue)
        } else if value == 2 {
            Some(VgaBgColour::Green)
        } else if value == 3 {
            Some(VgaBgColour::Cyan)
        } else if value == 4 {
            Some(VgaBgColour::Red)
        } else if value == 5 {
            Some(VgaBgColour::Magenta)
        } else if value == 6 {
            Some(VgaBgColour::Brown)
        } else if value == 7 {
            Some(VgaBgColour::LightGray)
        } else {
            None
        }
    }

    /// The colour's number in the attribute byte.
    pub fn value(self) -> (r: u8)
        ensures
            r == self.value_spec(),
            r < 8,
    {
        match self {
            VgaBgColour::Black => 0,
            VgaBgColour::Blue => 1,
            VgaBgColour::Green => 2,
            VgaBgColour::Cyan => 3,
            VgaBgColour::Red => 4,
            VgaBgColour::Magenta => 5,
            VgaBgColour::Brown => 6,
            VgaBgColour::LightGray => 7,
        }
    }

    fn from_value(value: u8) -> (r: Option<VgaBgColour>)
        ensures
            r == VgaBgColour::from_value_spec(value),
    {
        match value {
            0 => Some(VgaBgColour::Black),
            1 => Some(VgaBgColour::Blue),
            2 => Some(VgaBgColour::Green),
            3 => Some(VgaBgColour::Cyan),
            4 => Some(VgaBgColour::Red),
            5 => Some(VgaBgColour::Magenta),
            6 => Some(VgaBgColour::Brown),
            7 => Some(VgaBgColour::LightGray),
            _ => None,
        }
    }
}

impl From<VgaBgColour> for u8 {
    fn from(value: VgaBgColour) -> (r: u8) {
        value.value()
    }
}

impl vstd::std_specs::convert::FromSpecImpl<VgaBgColour> for u8 {
    open spec fn obeys_from_spec() -> bool {
        true
    }

    open spec fn from_spec(v: VgaBgColour) -> u8 {
        v.value_spec()
    }
}

impl TryFrom<u8> for VgaBgColour {
    type Error = &'static str;

    fn try_from(value: u8) -> (r: Result<VgaBgColour, &'static str>) {
        match VgaBgColour::from_value(value) {
            Some(c) => Ok(c),
            None => Err(INVALID_COLOUR),
        }
    }
}

impl vstd::std_specs::convert::TryFromSpecImpl<u8> for VgaBgColour {
    open spec fn obeys_try_from_spec() -> bool {
        true
    }

    open spec fn try_from_spec(v: u8) -> Result<VgaBgColour, &'static str> {
        match VgaBgColour::from_value_spec(v) {
            Some(c) => Ok(c),
            None => Err(INVALID_COLOUR),
        }
    }
}

impl Default for VgaBgColour {
    fn default() -> (r: VgaBgColour)
        ensures
            r == VgaBgColour::Black,
    {
        VgaBgColour::Black
    }
}

/// Attribute bit: the character blinks.
pub const BLINK_ATTR_MASK: u8 = 0x80;
/// Attribute bits: the background colour.
pub const BG_ATTR_MASK: u8 = 0x70;
/// Attribute bits: the foreground colour.
pub const FG_ATTR_MASK: u8 = 0x0F;
/// Position of the blink bit.
pub const BLINK_ATTR_OFFSET: u8 = 7;
/// Position of the background bits.
pub const BG_ATTR_OFFSET: u8 = 4;
/// Position of the foreground bits.
pub const FG_ATTR_OFFSET: u8 = 0;

/// A VGA text attribute byte: blink bit, three background bits, four
/// foreground bits. Every byte is a valid attribute.
#[derive(Debug, Clone, Copy, PartialEq, Eq, Structural, PartialOrd, Ord, Hash)]
pub struct VgaAttr(pub u8);

/// The attribute byte for the given colours and blink bit.
pub open spec fn attr_byte(bg: u8, fg: u8, blink: bool) -> u8 {
    (if blink { BLINK_ATTR_MASK } else { 0u8 }) | ((bg << BG_ATTR_OFFSET) as u8) | fg
}

proof fn lemma_attr_fields(bg: u8, fg: u8, blink: bool)
    requires
        bg < 8,
        fg < 16,
    ensures
        (attr_byte(bg, fg, blink) & BG_ATTR_MASK) >> BG_ATTR_OFFSET == bg,
        (attr_byte(bg, fg, blink) & FG_ATTR_MASK) >> FG_ATTR_OFFSET == fg,
        (attr_byte(bg, fg, blink) & BLINK_ATTR_MASK != 0) == blink,
{
    let k: u8 = if blink { BLINK_ATTR_MASK } else { 0u8 };
    assert(((k | ((bg << 4u8) as u8) | fg) & 0x70u8) >> 4u8 == bg) by (bit_vector)
        requires
            bg < 8,
            fg < 16,
            k == 0 || k == 0x80,
    ;
    assert(((k | ((bg << 4u8) as u8) | fg) & 0x0Fu8) >> 0u8 == fg) by (bit_vector)
        requires
            bg < 8,
            fg < 16,
            k == 0 || k == 0x80,
    ;
    assert(((k | ((bg << 4u8) as u8) | fg) & 0x80u8 != 0) == (k == 0x80)) by (bit_vector)
        requires
            bg < 8,
            fg < 16,
            k == 0 || k == 0x80,
    ;
}

proof fn lemma_attr_recompose(x: u8)
    ensures
        x == attr_byte(
            (x & BG_ATTR_MASK) >> BG_ATTR_OFFSET,
            (x & FG_ATTR_MASK) >> FG_ATTR_OFFSET,
            x & BLINK_ATTR_MASK != 0,
        ),
        (x & BG_ATTR_MASK) >> BG_ATTR_OFFSET < 8,
        (x & FG_ATTR_MASK) >> FG_ATTR_OFFSET < 16,
{
    let k: u8 = if x & 0x80u8 != 0 { 0x80u8 } else { 0u8 };
    assert(x == k | ((((x & 0x70u8) >> 4u8) << 4u8) as u8) | ((x & 0x0Fu8) >> 0u8)) by (bit_vector)
        requires
            k == (if x & 0x80u8 != 0 { 0x80u8 } else { 0u8 }),
    ;
    assert((x & 0x70u8) >> 4u8 < 8) by (bit_vector);
    assert((x & 0x0Fu8) >> 0u8 < 16) by (bit_vector);
}

impl VgaAttr {
    /// The attribute with the given colours and blink bit.
    pub open spec fn new_spec(bg: VgaBgColour, fg: VgaFgColour, blink: bool) -> VgaAttr {
        VgaAttr(attr_byte(bg.value_spec(), fg.value_spec(), blink))
    }

    /// The background colour.
    pub open spec fn bg_spec(self) -> VgaBgColour {
        VgaBgColour::from_value_spec((self.0 & BG_ATTR_MASK) >> BG_ATTR_OFFSET)->Some_0
    }

    /// The foreground colour.
    pub open spec fn fg_spec(self) -> VgaFgColour {
        VgaFgColour::from_value_spec((self.0 & FG_ATTR_MASK) >> FG_ATTR_OFFSET)->Some_0
    }

    /// The blink bit.
    pub open spec fn blink_spec(self) -> bool {
        self.0 & BLINK_ATTR_MASK != 0
    }

    /// The attribute with the given colours and blink bit.
    pub fn new(bg: VgaBgColour, fg: VgaFgColour, blink: bool) -> (r: VgaAttr)
        ensures
            r == VgaAttr::new_spec(bg, fg, blink),
            r.bg_spec() == bg,
            r.fg_spec() == fg,
            r.blink_spec() == blink,
    {
        let b = bg.value();
        let f = fg.value();
        proof {
            lemma_attr_fields(b, f, blink);
        }
        VgaAttr((if blink { BLINK_ATTR_MASK } else { 0u8 }) | (b << BG_ATTR_OFFSET) | f)
    }

    /// The background colour.
    pub fn bg(&self) -> (r: VgaBgColour)
        ensures
            r == self.bg_spec(),
    {
        proof {
            lemma_attr_recompose(self.0);
        }
        match VgaBgColour::from_value((self.0 & BG_ATTR_MASK) >> BG_ATTR_OFFSET) {
            Some(c) => c,
            None => VgaBgColour::Black,
        }
    }

    /// The foreground colour.
    pub fn fg(&self) -> (r: VgaFgColour)
        ensures
            r == self.fg_spec(),
    {
        proof {
            lemma_attr_recompose(self.0);
        }
        match VgaFgColour::from_value((self.0 & FG_ATTR_MASK) >> FG_ATTR_OFFSET) {
            Some(c) => c,
            None => VgaFgColour::White,
        }
    }

    /// The blink bit.
    pub fn blink(&self) -> (r: bool)
        ensures
            r == self.blink_spec(),
    {
        (self.0 & BLINK_ATTR_MASK) != 0
    }

    /// Clears the bits of `mask`, then writes `value` shifted to `offset`.
    pub fn overwrite_mask_offset(&mut self, mask: u8, offset: u8, value: u8)
        requires
            offset < 8,
        ensures
            final(self).0 == (old(self).0 & !mask) | ((value << offset) as u8),
    {
        *self = VgaAttr((self.0 & !mask) | (value << offset));
    }

    /// Sets the background colour, keeping the rest.
    pub fn set_bg(&mut self, bg: VgaBgColour)
        ensures
            *final(self) == VgaAttr::new_spec(bg, old(self).fg_spec(), old(self).blink_spec()),
    {
        let ghost x = self.0;
        let b = bg.value();
        self.overwrite_mask_offset(BG_ATTR_MASK, BG_ATTR_OFFSET, b);
        proof {
            lemma_attr_recompose(x);
            let f = (x & FG_ATTR_MASK) >> FG_ATTR_OFFSET;
            let k: u8 = if x & 0x80u8 != 0 { 0x80u8 } else { 0u8 };
            assert((x & !0x70u8) | ((b << 4u8) as u8) == k | ((b << 4u8) as u8) | ((x & 0x0Fu8) >> 0u8))
                by (bit_vector)
                requires
                    b < 8,
                    k == (if x & 0x80u8 != 0 { 0x80u8 } else { 0u8 }),
            ;
        }
    }

    /// Sets the foreground colour, keeping the rest.
    pub fn set_fg(&mut self, fg: VgaFgColour)
        ensures
            *final(self) == VgaAttr::new_spec(old(self).bg_spec(), fg, old(self).blink_spec()),
    {
        let ghost x = self.0;
        let f = fg.value();
        self.overwrite_mask_offset(FG_ATTR_MASK, FG_ATTR_OFFSET, f);
        proof {
            lemma_attr_recompose(x);
            let k: u8 = if x & 0x80u8 != 0 { 0x80u8 } else { 0u8 };
            assert((x & !0x0Fu8) | ((f << 0u8) as u8) == k | ((((x & 0x70u8) >> 4u8) << 4u8) as u8) | f)
                by (bit_vector)
                requires
                    f < 16,
                    k == (if x & 0x80u8 != 0 { 0x80u8 } else { 0u8 }),
            ;
        }
    }

    /// Sets the blink bit, keeping the colours.
    pub fn set_blink(&mut self, blink: bool)
        ensures
            *final(self) == VgaAttr::new_spec(old(self).bg_spec(), old(self).fg_spec(), blink),
    {
        let ghost x = self.0;
        let v: u8 = if blink { 1 } else { 0 };
        self.overwrite_mask_offset(BLINK_ATTR_MASK, BLINK_ATTR_OFFSET, v);
        proof {
            lemma_attr_recompose(x);
            let k: u8 = if blink { 0x80u8 } else { 0u8 };
            assert((x & !0x80u8) | ((v << 7u8) as u8) == k | ((((x & 0x70u8) >> 4u8) << 4u8) as u8) | ((x
                & 0x0Fu8) >> 0u8)) by (bit_vector)
                requires
                    v == 0 || v == 1,
                    k == (if v == 1 { 0x80u8 } else { 0u8 }),
            ;
        }
    }
}

impl Default for VgaAttr {
    fn default() -> (r: VgaAttr)
        ensures
            r == VgaAttr::new_spec(VgaBgColour::Black, VgaFgColour::White, false),
    {
        VgaAttr::new(VgaBgColour::Black, VgaFgColour::White, false)
    }
}

/// Reading a colour or the blink bit back from an attribute gives what it was
/// built with.
pub proof fn attr_fields_round_trip(bg: VgaBgColour, fg: VgaFgColour, blink: bool)
    ensures
        VgaAttr::new_spec(bg, fg, blink).bg_spec() == bg,
        VgaAttr::new_spec(bg, fg, blink).fg_spec() == fg,
        VgaAttr::new_spec(bg, fg, blink).blink_spec() == blink,
{
    lemma_attr_fields(bg.value_spec(), fg.value_spec(), blink);
}

} // verus!
