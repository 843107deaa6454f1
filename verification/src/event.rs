use vstd::prelude::*;

verus! {

/// A location on the virtual desktop.
///
/// Point coordinates are relative to the target display's physical pixel
/// coordinates; e.g. a 2048x1536 display accepts points from (0,0) to
/// (2048,1536) regardless of the pixel size of the input.
#[derive(Debug, Clone, Copy, PartialEq, Eq, Structural)]
pub struct Point(pub u16, pub u16);

impl Default for Point {
    /// The origin, (0, 0).
    fn default() -> (p: Point)
        ensures
            p == Point(0, 0),
    {
        Point(0, 0)
    }
}

/// The type of pointing device.
///
/// Pointer device type should be reported as specifically as possible.
/// Event sources are expected to check for and bypass compatibility features
/// that might report, say, a finger touch as a click; event targets are
/// likewise expected to inject events as faithfully as possible.
#[derive(Debug, Clone, Copy, PartialEq, Eq, Structural)]
pub enum PointerType {
    /// A relative pointer method in which the user moves a small puck or spins
    /// a ball to produce input. Mice generate only one pointer event stream
    /// at a time.
    Mouse,
    /// An absolute pointer method in which the user presses one or more
    /// fingers against the display surface. Fingers can generate multiple
    /// pointer event streams.
    Finger,
    /// An absolute pointer method in which the user draws with a stick.
    /// Styluses generate one pointer event stream at a time.
    Stylus,
}

/// Bit of the primary mouse button (the left button for right-handed users).
pub const PRIMARY_BIT: u8 = 0b00000001;
/// Bit of the secondary/context mouse button (the right button for right-handed users).
pub const CONTEXT_BIT: u8 = 0b00000010;
/// Bit of the middle mouse button or scroll wheel click.
pub const SCROLL_BIT: u8 = 0b00000100;
/// Bit of the mouse's back button.
pub const BACK_BIT: u8 = 0b00001000;
/// Bit of the mouse's forward button.
pub const FORWARD_BIT: u8 = 0b00010000;
/// All the bits that name a button.
pub const ALL_BITS: u8 = 0b00011111;

/// Whether every bit of `flag` is set in `bits`.
pub open spec fn has_bits(bits: u8, flag: u8) -> bool {
    bits & flag == flag
}

/// List of mouse buttons that are currently being pressed.
///
/// The names of the buttons are reported here without reference to physical
/// position, as these buttons will be in different positions depending on what
/// kind of mouse is in use and if the user is left- or right-handed. Event
/// sources must report buttons in this abstract way so that the source
/// platform's chirality preference is taken into account.
///
/// The set is a byte of bits, one per button; bits that name no button are
/// kept as they were given (as a decoded value may carry them).
#[derive(Debug, Clone, Copy, PartialEq, Eq, Structural)]
pub struct MouseButtons {
    bits: u8,
}

impl View for MouseButtons {
    type V = u8;

    closed spec fn view(&self) -> u8 {
        self.bits
    }
}

impl Default for MouseButtons {
    /// No button pressed.
    fn default() -> (b: MouseButtons)
        ensures
            b@ == 0,
    {
        MouseButtons { bits: 0 }
    }
}

impl MouseButtons {
    /// The primary mouse button. For right-handed users, this is typically the
    /// left mouse button.
    pub fn primary() -> (b: MouseButtons)
        ensures
            b@ == PRIMARY_BIT,
    {
        MouseButtons { bits: PRIMARY_BIT }
    }

    /// The secondary/context mouse button. For right-handed users, this is
    /// typically the right mouse button.
    pub fn context() -> (b: MouseButtons)
        ensures
            b@ == CONTEXT_BIT,
    {
        MouseButtons { bits: CONTEXT_BIT }
    }

    /// The middle mouse button or scroll wheel click.
    pub fn scroll() -> (b: MouseButtons)
        ensures
            b@ == SCROLL_BIT,
    {
        MouseButtons { bits: SCROLL_BIT }
    }

    /// The mouse's back button.
    pub fn back() -> (b: MouseButtons)
        ensures
            b@ == BACK_BIT,
    {
        MouseButtons { bits: BACK_BIT }
    }

    /// The mouse's forward button.
    pub fn forward() -> (b: MouseButtons)
        ensures
            b@ == FORWARD_BIT,
    {
        MouseButtons { bits: FORWARD_BIT }
    }

    /// The empty set.
    pub fn empty() -> (b: MouseButtons)
        ensures
            b@ == 0,
    {
        MouseButtons { bits: 0 }
    }

    /// The set of all five buttons.
    pub fn all() -> (b: MouseButtons)
        ensures
            b@ == ALL_BITS,
    {
        MouseButtons { bits: ALL_BITS }
    }

    /// The raw bits of this set.
    pub fn bits(&self) -> (b: u8)
        ensures
            b == self@,
    {
        self.bits
    }

    /// The set with these bits, or `None` where a bit names no button.
    pub fn from_bits(bits: u8) -> (r: Option<MouseButtons>)
        ensures
            r is Some <==> bits & !ALL_BITS == 0,
            r matches Some(b) ==> b@ == bits,
    {
        if bits & !ALL_BITS == 0 {
            Some(MouseButtons { bits })
        } else {
            None
        }
    }

    /// The set with these bits, dropping those that name no button.
    pub fn from_bits_truncate(bits: u8) -> (b: MouseButtons)
        ensures
            b@ == bits & ALL_BITS,
    {
        MouseButtons { bits: bits & ALL_BITS }
    }

    /// The set with exactly these bits, those that name no button included.
    pub fn from_bits_retain(bits: u8) -> (b: MouseButtons)
        ensures
            b@ == bits,
    {
        MouseButtons { bits }
    }

    /// Whether no bit is set.
    pub fn is_empty(&self) -> (r: bool)
        ensures
            r <==> self@ == 0,
    {
        self.bits == 0
    }

    /// Whether every button is in the set.
    pub fn is_all(&self) -> (r: bool)
        ensures
            r <==> has_bits(self@, ALL_BITS),
    {
        self.bits & ALL_BITS == ALL_BITS
    }

    /// Whether every button of `other` is in this set.
    pub fn contains(&self, other: MouseButtons) -> (r: bool)
        ensures
            r <==> has_bits(self@, other@),
    {
        self.bits & other.bits == other.bits
    }

    /// Whether the two sets share a button.
    pub fn intersects(&self, other: MouseButtons) -> (r: bool)
        ensures
            r <==> self@ & other@ != 0,
    {
        self.bits & other.bits != 0
    }

    /// The buttons in either set.
    pub fn union(self, other: MouseButtons) -> (r: MouseButtons)
        ensures
            r@ == self@ | other@,
    {
        MouseButtons { bits: self.bits | other.bits }
    }

    /// The buttons in both sets.
    pub fn intersection(self, other: MouseButtons) -> (r: MouseButtons)
        ensures
            r@ == self@ & other@,
    {
        MouseButtons { bits: self.bits & other.bits }
    }

    /// The buttons in this set and not in `other`.
    pub fn difference(self, other: MouseButtons) -> (r: MouseButtons)
        ensures
            r@ == self@ & !other@,
    {
        MouseButtons { bits: self.bits & !other.bits }
    }

    /// The buttons in exactly one of the two sets.
    pub fn symmetric_difference(self, other: MouseButtons) -> (r: MouseButtons)
        ensures
            r@ == self@ ^ other@,
    {
        MouseButtons { bits: self.bits ^ other.bits }
    }

    /// The buttons not in this set.
    pub fn complement(self) -> (r: MouseButtons)
        ensures
            r@ == !self@ & ALL_BITS,
    {
        MouseButtons { bits: !self.bits & ALL_BITS }
    }

    /// Adds the buttons of `other`.
    pub fn insert(&mut self, other: MouseButtons)
        ensures
            final(self)@ == old(self)@ | other@,
    {
        self.bits = self.bits | other.bits;
    }

    /// Removes the buttons of `other`.
    pub fn remove(&mut self, other: MouseButtons)
        ensures
            final(self)@ == old(self)@ & !other@,
    {
        self.bits = self.bits & !other.bits;
    }

    /// Flips the buttons of `other`.
    pub fn toggle(&mut self, other: MouseButtons)
        ensures
            final(self)@ == old(self)@ ^ other@,
    {
        self.bits = self.bits ^ other.bits;
    }

    /// Adds the buttons of `other` when `value` holds, else removes them.
    pub fn set(&mut self, other: MouseButtons, value: bool)
        ensures
            final(self)@ == if value { old(self)@ | other@ } else { old(self)@ & !other@ },
    {
        if value {
            self.insert(other);
        } else {
            self.remove(other);
        }
    }
}

/// Auxiliary pointer data provided by a given type of pointing device.
#[derive(Debug, Clone, Copy, PartialEq, Eq, Structural)]
pub enum PointerData {
    /// Pointer data specific to `Mouse` pointers.
    Mouse {
        /// What buttons are currently pressed on the mouse.
        buttons: MouseButtons,
    },
    /// Pointer data specific to `Finger` pointers.
    Finger,
    /// Pointer data specific to `Stylus` pointers.
    Stylus,
}

/// The type of pointing device that produced the data.
pub open spec fn pointer_type_of(data: PointerData) -> PointerType {
    match data {
        PointerData::Mouse { .. } => PointerType::Mouse,
        PointerData::Finger => PointerType::Finger,
        PointerData::Stylus => PointerType::Stylus,
    }
}

impl From<PointerData> for PointerType {
    fn from(pdata: PointerData) -> (t: PointerType) {
        match pdata {
            PointerData::Mouse { .. } => PointerType::Mouse,
            PointerData::Finger => PointerType::Finger,
            PointerData::Stylus => PointerType::Stylus,
        }
    }
}

impl vstd::std_specs::convert::FromSpecImpl<PointerData> for PointerType {
    open spec fn obeys_from_spec() -> bool {
        true
    }

    open spec fn from_spec(v: PointerData) -> PointerType {
        pointer_type_of(v)
    }
}

/// What action is being taken on the pointer event stream.
#[derive(Debug, Clone, Copy, PartialEq, Eq, Structural)]
pub enum StreamAction {
    /// A new pointer was added to the event stream.
    ///
    /// The stream ID for this pointer event must not currently be in use by
    /// another pointer of this type.
    Start,
    /// Existing pointer data was updated, e.g. a pointer was moved, a mouse
    /// button pressed, a stylus tilted.
    Update,
    /// A pointer was removed from the event stream. This may also contain a
    /// final pointer data update. Once a stream has been ended, its stream ID
    /// may be reused by a subsequent `Start` action.
    End,
    /// A pointer was cancelled from the event stream.
    ///
    /// This is equivalent to ending a pointer stream, with the added
    /// implication that it was ended due to platform-specific actions, such as
    /// an alert window occluding a tracked finger. A target that does not
    /// support pointer cancellation should treat it as an `End` action.
    Cancel,
}

/// An event generated by a pointer-type input device.
#[derive(Debug, Clone, Copy, PartialEq, Eq, Structural)]
pub struct PointerEvent {
    /// What we're doing to the given pointer.
    pub stream_action: StreamAction,

    /// The pointer event stream ID.
    ///
    /// This identifies multiple pointers operating simultaneously. Stream IDs
    /// must remain stable and unique while a particular pointer is in use, and
    /// are specific to the type of pointer being reported on (finger #1 is not
    /// the same as stylus #1).
    pub stream: u8,

    /// The current location of the pointer.
    pub location: Point,

    /// Any data specific to the pointing device.
    pub data: PointerData,
}

} // verus!
