//! What a Windows event target injects for each pointer event it receives.
//!
//! Touch and stylus events become synthetic pointer frames; mouse events
//! become one or two `SendInput` mouse records, whose flag words are computed
//! from the buttons pressed and released since the last mouse event.
use vstd::prelude::*;

use crate::event::{
    has_bits, MouseButtons, Point, PointerData, PointerEvent, StreamAction, BACK_BIT, CONTEXT_BIT,
    FORWARD_BIT, PRIMARY_BIT, SCROLL_BIT,
};

verus! {

/// Mouse record flag: the pointer moved.
pub const MOUSEEVENTF_MOVE: u32 = 0x0001;
/// Mouse record flag: the left button went down.
pub const MOUSEEVENTF_LEFTDOWN: u32 = 0x0002;
/// Mouse record flag: the left button went up.
pub const MOUSEEVENTF_LEFTUP: u32 = 0x0004;
/// Mouse record flag: the right button went down.
pub const MOUSEEVENTF_RIGHTDOWN: u32 = 0x0008;
/// Mouse record flag: the right button went up.
pub const MOUSEEVENTF_RIGHTUP: u32 = 0x0010;
/// Mouse record flag: the middle button went down.
pub const MOUSEEVENTF_MIDDLEDOWN: u32 = 0x0020;
/// Mouse record flag: the middle button went up.
pub const MOUSEEVENTF_MIDDLEUP: u32 = 0x0040;
/// Mouse record flag: the X buttons named in the mouse data went down.
pub const MOUSEEVENTF_XDOWN: u32 = 0x0080;
/// Mouse record flag: the X buttons named in the mouse data went up.
pub const MOUSEEVENTF_XUP: u32 = 0x0100;
/// Mouse record flag: coordinates span the whole virtual desktop.
pub const MOUSEEVENTF_VIRTUALDESK: u32 = 0x4000;
/// Mouse record flag: coordinates are absolute.
pub const MOUSEEVENTF_ABSOLUTE: u32 = 0x8000;
/// Mouse data bit of the first X button (back).
pub const XBUTTON1: u32 = 0x0001;
/// Mouse data bit of the second X button (forward).
pub const XBUTTON2: u32 = 0x0002;

/// Pointer flag: a new pointer.
pub const POINTER_FLAG_NEW: u32 = 0x0000_0001;
/// Pointer flag: the pointer's input was cancelled.
pub const POINTER_FLAG_CANCELED: u32 = 0x0000_8000;
/// Pointer flag: an update of an existing pointer.
pub const POINTER_FLAG_UPDATE: u32 = 0x0002_0000;
/// Pointer flag: the pointer went up.
pub const POINTER_FLAG_UP: u32 = 0x0004_0000;

/// Pointer device type of touch input.
pub const PT_TOUCH: u32 = 2;
/// Pointer device type of pen input.
pub const PT_PEN: u32 = 3;

/// A synthetic pointer frame for a touch or pen device.
///
/// The pixel and himetric locations, raw or not, all equal `(x, y)`; time,
/// history, key states, performance count and button change are zero.
#[derive(Debug, Clone, Copy, PartialEq, Eq, Structural)]
pub struct PointerFrame {
    /// The pointer's identifier: the event's stream ID.
    pub pointer_id: u32,
    /// The pointer flags of the stream action.
    pub pointer_flags: u32,
    /// Horizontal location.
    pub x: i32,
    /// Vertical location.
    pub y: i32,
    /// `PT_TOUCH` or `PT_PEN`.
    pub pointer_type: u32,
}

/// One mouse record handed to `SendInput`.
#[derive(Debug, Clone, Copy, PartialEq, Eq, Structural)]
pub struct MouseInput {
    /// Absolute horizontal location.
    pub dx: i32,
    /// Absolute vertical location.
    pub dy: i32,
    /// The X buttons that the `XDOWN`/`XUP` flag is about.
    pub mouse_data: u32,
    /// The `MOUSEEVENTF_*` flags.
    pub flags: u32,
}

/// What to inject for one pointer event.
#[derive(Debug, Clone, PartialEq, Eq)]
pub enum Injection {
    /// A frame for the synthetic touch device.
    Touch(PointerFrame),
    /// A frame for the synthetic pen device.
    Pen(PointerFrame),
    /// Mouse records, in order (one or two).
    Mouse(Vec<MouseInput>),
}

/// `f` where `c` holds, else no flag.
pub open spec fn flag_if(c: bool, f: u32) -> u32 {
    if c {
        f
    } else {
        0
    }
}

fn when(c: bool, f: u32) -> (r: u32)
    ensures
        r == flag_if(c, f),
{
    if c {
        f
    } else {
        0
    }
}

/// The pointer flags of a stream action.
pub open spec fn stream_flags(action: StreamAction) -> u32 {
    match action {
        StreamAction::Start => POINTER_FLAG_NEW,
        StreamAction::Update => POINTER_FLAG_UPDATE,
        StreamAction::End => POINTER_FLAG_UP,
        StreamAction::Cancel => POINTER_FLAG_CANCELED,
    }
}

/// The frame injected for a touch or pen event.
pub open spec fn pointer_frame(p: PointerEvent, pointer_type: u32) -> PointerFrame {
    PointerFrame {
        pointer_id: p.stream as u32,
        pointer_flags: stream_flags(p.stream_action),
        x: p.location.0 as i32,
        y: p.location.1 as i32,
        pointer_type,
    }
}

/// The mouse data naming the X buttons of a button set.
pub open spec fn x_buttons(set: u8) -> u32 {
    flag_if(has_bits(set, BACK_BIT), XBUTTON1) | flag_if(has_bits(set, FORWARD_BIT), XBUTTON2)
}

/// Whether one X button went down while the other went up, which one mouse
/// record cannot say.
pub open spec fn x_crossed(pressed: u8, released: u8) -> bool {
    ||| has_bits(pressed, BACK_BIT) && has_bits(released, FORWARD_BIT)
    ||| has_bits(pressed, FORWARD_BIT) && has_bits(released, BACK_BIT)
}

/// The buttons down now and not before.
pub open spec fn pressed_bits(last: u8, now: u8) -> u8 {
    now & !last
}

/// The buttons down before and not now.
pub open spec fn released_bits(last: u8, now: u8) -> u8 {
    last & !now
}

/// The X buttons (back and forward) of a button set.
pub open spec fn x_bits(set: u8) -> u8 {
    set & (BACK_BIT | FORWARD_BIT)
}

/// The flags of the first mouse record: the left, right and middle buttons
/// that went down or up; `XDOWN` where an X button went down, else `XUP`
/// where an X button went up.
pub open spec fn first_flags(moved: bool, pressed: u8, released: u8) -> u32 {
    MOUSEEVENTF_ABSOLUTE | MOUSEEVENTF_VIRTUALDESK | flag_if(moved, MOUSEEVENTF_MOVE) | flag_if(
        has_bits(pressed, PRIMARY_BIT),
        MOUSEEVENTF_LEFTDOWN,
    ) | flag_if(has_bits(released, PRIMARY_BIT), MOUSEEVENTF_LEFTUP) | flag_if(
        has_bits(pressed, CONTEXT_BIT),
        MOUSEEVENTF_RIGHTDOWN,
    ) | flag_if(has_bits(released, CONTEXT_BIT), MOUSEEVENTF_RIGHTUP) | flag_if(
        has_bits(pressed, SCROLL_BIT),
        MOUSEEVENTF_MIDDLEDOWN,
    ) | flag_if(has_bits(released, SCROLL_BIT), MOUSEEVENTF_MIDDLEUP) | (if x_bits(pressed) != 0 {
        MOUSEEVENTF_XDOWN
    } else if x_bits(released) != 0 {
        MOUSEEVENTF_XUP
    } else {
        0
    })
}

/// The mouse data of the first mouse record: the X buttons that went down,
/// else those that went up.
pub open spec fn first_data(pressed: u8, released: u8) -> u32 {
    if x_bits(pressed) != 0 {
        x_buttons(pressed)
    } else if x_bits(released) != 0 {
        x_buttons(released)
    } else {
        0
    }
}

/// The mouse records sent for a mouse event at `location` with `now` down,
/// after the last one at `last_position` with `last` down.
///
/// Where an X button goes down while the other goes up, a second record
/// releases the released X buttons.
pub open spec fn mouse_inputs(last_position: Point, last: u8, location: Point, now: u8) -> Seq<
    MouseInput,
> {
    let pressed = pressed_bits(last, now);
    let released = released_bits(last, now);
    let first = MouseInput {
        dx: location.0 as i32,
        dy: location.1 as i32,
        mouse_data: first_data(pressed, released),
        flags: first_flags(location != last_position, pressed, released),
    };
    if x_crossed(pressed, released) {
        seq![
            first,
            MouseInput {
                dx: location.0 as i32,
                dy: location.1 as i32,
                mouse_data: x_buttons(released),
                flags: MOUSEEVENTF_ABSOLUTE | MOUSEEVENTF_VIRTUALDESK | MOUSEEVENTF_XUP,
            },
        ]
    } else {
        seq![first]
    }
}

/// The pointer state that a Windows event target keeps between events: where
/// the mouse was and which buttons were down when it last reported.
#[derive(Debug, Clone, Copy, PartialEq, Eq, Structural)]
pub struct TargetServicer {
    /// The last reported mouse position.
    pub last_mouse_position: Point,
    /// The last reported mouse button state.
    pub last_buttons: MouseButtons,
}

impl TargetServicer {
    /// No mouse event seen yet: position (0, 0), no button down.
    pub fn new() -> (s: TargetServicer)
        ensures
            s.last_mouse_position == Point(0, 0),
            s.last_buttons@ == 0,
    {
        TargetServicer { last_mouse_position: Point::default(), last_buttons: MouseButtons::default() }
    }

    fn x_button_data(set: MouseButtons) -> (d: u32)
        ensures
            d == x_buttons(set@),
    {
        when(set.contains(MouseButtons::back()), XBUTTON1) | when(
            set.contains(MouseButtons::forward()),
            XBUTTON2,
        )
    }

    /// What to inject for pointer event `p`, and the state after it.
    ///
    /// Finger events become touch frames, stylus events pen frames; neither
    /// changes the state. A mouse event becomes `mouse_inputs(..)` and makes its
    /// location and buttons the last reported ones.
    pub fn update_pointer(&mut self, p: PointerEvent) -> (r: Injection)
        ensures
            match p.data {
                PointerData::Finger => {
                    &&& r == Injection::Touch(pointer_frame(p, PT_TOUCH))
                    &&& *final(self) == *old(self)
                },
                PointerData::Stylus => {
                    &&& r == Injection::Pen(pointer_frame(p, PT_PEN))
                    &&& *final(self) == *old(self)
                },
                PointerData::Mouse { buttons } => {
                    &&& r matches Injection::Mouse(v) && v@ == mouse_inputs(
                        old(self).last_mouse_position,
                        old(self).last_buttons@,
                        p.location,
                        buttons@,
                    )
                    &&& final(self).last_mouse_position == p.location
                    &&& final(self).last_buttons == buttons
                },
            },
            r matches Injection::Mouse(v) ==> forall|i: int|
                0 <= i < v.len() ==> #[trigger] v@[i].dx == p.location.0 as i32 && v@[i].dy
                    == p.location.1 as i32,
            r matches Injection::Touch(f) ==> f.pointer_type == PT_TOUCH && f.pointer_id
                == p.stream as u32 && f.x == p.location.0 as i32 && f.y == p.location.1 as i32
                && f.pointer_flags == match p.stream_action {
                StreamAction::Start => POINTER_FLAG_NEW,
                StreamAction::Update => POINTER_FLAG_UPDATE,
                StreamAction::End => POINTER_FLAG_UP,
                StreamAction::Cancel => POINTER_FLAG_CANCELED,
            },
            r matches Injection::Pen(f) ==> f.pointer_type == PT_PEN && f.pointer_id
                == p.stream as u32 && f.x == p.location.0 as i32 && f.y == p.location.1 as i32
                && f.pointer_flags == match p.stream_action {
                StreamAction::Start => POINTER_FLAG_NEW,
                StreamAction::Update => POINTER_FLAG_UPDATE,
                StreamAction::End => POINTER_FLAG_UP,
                StreamAction::Cancel => POINTER_FLAG_CANCELED,
            },
    {
        let pointer_id = p.stream as u32;
        let pointer_flags = match p.stream_action {
            StreamAction::Start => POINTER_FLAG_NEW,
            StreamAction::Update => POINTER_FLAG_UPDATE,
            StreamAction::End => POINTER_FLAG_UP,
            StreamAction::Cancel => POINTER_FLAG_CANCELED,
        };
        let x = p.location.0 as i32;
        let y = p.location.1 as i32;
        match p.data {
            PointerData::Finger => Injection::Touch(
                PointerFrame { pointer_id, pointer_flags, x, y, pointer_type: PT_TOUCH },
            ),
            PointerData::Stylus => Injection::Pen(
                PointerFrame { pointer_id, pointer_flags, x, y, pointer_type: PT_PEN },
            ),
            PointerData::Mouse { buttons } => {
                let pressed = buttons.difference(self.last_buttons);
                let released = self.last_buttons.difference(buttons);
                let moved = p.location != self.last_mouse_position;
                let flags = MOUSEEVENTF_ABSOLUTE | MOUSEEVENTF_VIRTUALDESK | when(
                    moved,
                    MOUSEEVENTF_MOVE,
                ) | when(pressed.contains(MouseButtons::primary()), MOUSEEVENTF_LEFTDOWN) | when(
                    released.contains(MouseButtons::primary()),
                    MOUSEEVENTF_LEFTUP,
                ) | when(pressed.contains(MouseButtons::context()), MOUSEEVENTF_RIGHTDOWN) | when(
                    released.contains(MouseButtons::context()),
                    MOUSEEVENTF_RIGHTUP,
                ) | when(pressed.contains(MouseButtons::scroll()), MOUSEEVENTF_MIDDLEDOWN) | when(
                    released.contains(MouseButtons::scroll()),
                    MOUSEEVENTF_MIDDLEUP,
                );
                let crossed = (pressed.contains(MouseButtons::back()) && released.contains(
                    MouseButtons::forward(),
                )) || (pressed.contains(MouseButtons::forward()) && released.contains(
                    MouseButtons::back(),
                ));
                let x_buttons_set = MouseButtons::back().union(MouseButtons::forward());
                let x_pressed = pressed.intersects(x_buttons_set);
                let x_released = released.intersects(x_buttons_set);
                let mut inputs: Vec<MouseInput> = Vec::new();
                inputs.push(
                    MouseInput {
                        dx: x,
                        dy: y,
                        mouse_data: if x_pressed {
                            Self::x_button_data(pressed)
                        } else if x_released {
                            Self::x_button_data(released)
                        } else {
                            0
                        },
                        flags: flags | if x_pressed {
                            MOUSEEVENTF_XDOWN
                        } else if x_released {
                            MOUSEEVENTF_XUP
                        } else {
                            0
                        },
                    },
                );
                if crossed {
                    inputs.push(
                        MouseInput {
                            dx: x,
                            dy: y,
                            mouse_data: Self::x_button_data(released),
                            flags: MOUSEEVENTF_ABSOLUTE | MOUSEEVENTF_VIRTUALDESK
                                | MOUSEEVENTF_XUP,
                        },
                    );
                }
                self.last_buttons = buttons;
                self.last_mouse_position = p.location;
                proof {
                    assert(inputs@ =~= mouse_inputs(
                        old(self).last_mouse_position,
                        old(self).last_buttons@,
                        p.location,
                        buttons@,
                    ));
                }
                Injection::Mouse(inputs)
            },
        }
    }
}


/// Whether button `b` is down now and was not before.
pub open spec fn went_down(last: u8, now: u8, b: u8) -> bool {
    has_bits(now, b) && !has_bits(last, b)
}

/// Whether button `b` was down before and is not now.
pub open spec fn went_up(last: u8, now: u8, b: u8) -> bool {
    has_bits(last, b) && !has_bits(now, b)
}

proof fn lemma_single_bit_transitions(last: u8, now: u8)
    ensures
        has_bits(pressed_bits(last, now), PRIMARY_BIT) == went_down(last, now, PRIMARY_BIT),
        has_bits(released_bits(last, now), PRIMARY_BIT) == went_up(last, now, PRIMARY_BIT),
        has_bits(pressed_bits(last, now), CONTEXT_BIT) == went_down(last, now, CONTEXT_BIT),
        has_bits(released_bits(last, now), CONTEXT_BIT) == went_up(last, now, CONTEXT_BIT),
        has_bits(pressed_bits(last, now), SCROLL_BIT) == went_down(last, now, SCROLL_BIT),
        has_bits(released_bits(last, now), SCROLL_BIT) == went_up(last, now, SCROLL_BIT),
        has_bits(pressed_bits(last, now), BACK_BIT) == went_down(last, now, BACK_BIT),
        has_bits(released_bits(last, now), BACK_BIT) == went_up(last, now, BACK_BIT),
        has_bits(pressed_bits(last, now), FORWARD_BIT) == went_down(last, now, FORWARD_BIT),
        has_bits(released_bits(last, now), FORWARD_BIT) == went_up(last, now, FORWARD_BIT),
{
    assert(has_bits(now & !last, 1) == (has_bits(now, 1) && !has_bits(last, 1))) by (bit_vector);
    assert(has_bits(last & !now, 1) == (has_bits(last, 1) && !has_bits(now, 1))) by (bit_vector);
    assert(has_bits(now & !last, 2) == (has_bits(now, 2) && !has_bits(last, 2))) by (bit_vector);
    assert(has_bits(last & !now, 2) == (has_bits(last, 2) && !has_bits(now, 2))) by (bit_vector);
    assert(has_bits(now & !last, 4) == (has_bits(now, 4) && !has_bits(last, 4))) by (bit_vector);
    assert(has_bits(last & !now, 4) == (has_bits(last, 4) && !has_bits(now, 4))) by (bit_vector);
    assert(has_bits(now & !last, 8) == (has_bits(now, 8) && !has_bits(last, 8))) by (bit_vector);
    assert(has_bits(last & !now, 8) == (has_bits(last, 8) && !has_bits(now, 8))) by (bit_vector);
    assert(has_bits(now & !last, 16) == (has_bits(now, 16) && !has_bits(last, 16)))
        by (bit_vector);
    assert(has_bits(last & !now, 16) == (has_bits(last, 16) && !has_bits(now, 16)))
        by (bit_vector);
}

proof fn lemma_x_bits(set: u8)
    ensures
        (x_bits(set) != 0) == (has_bits(set, BACK_BIT) || has_bits(set, FORWARD_BIT)),
        (x_buttons(set) & XBUTTON1 != 0) == has_bits(set, BACK_BIT),
        (x_buttons(set) & XBUTTON2 != 0) == has_bits(set, FORWARD_BIT),
{
    assert((set & (8u8 | 16u8) != 0) == (has_bits(set, 8) || has_bits(set, 16))) by (bit_vector);
    assert((x_buttons(set) & 1 != 0) == has_bits(set, 8) && (x_buttons(set) & 2 != 0)
        == has_bits(set, 16)) by (bit_vector);
}

proof fn lemma_first_flag_bits(moved: bool, p: u8, r: u8)
    ensures
        first_flags(moved, p, r) & MOUSEEVENTF_ABSOLUTE != 0,
        first_flags(moved, p, r) & MOUSEEVENTF_VIRTUALDESK != 0,
        (first_flags(moved, p, r) & MOUSEEVENTF_MOVE != 0) == moved,
        (first_flags(moved, p, r) & MOUSEEVENTF_LEFTDOWN != 0) == has_bits(p, PRIMARY_BIT),
        (first_flags(moved, p, r) & MOUSEEVENTF_LEFTUP != 0) == has_bits(r, PRIMARY_BIT),
        (first_flags(moved, p, r) & MOUSEEVENTF_RIGHTDOWN != 0) == has_bits(p, CONTEXT_BIT),
        (first_flags(moved, p, r) & MOUSEEVENTF_RIGHTUP != 0) == has_bits(r, CONTEXT_BIT),
        (first_flags(moved, p, r) & MOUSEEVENTF_MIDDLEDOWN != 0) == has_bits(p, SCROLL_BIT),
        (first_flags(moved, p, r) & MOUSEEVENTF_MIDDLEUP != 0) == has_bits(r, SCROLL_BIT),
        (first_flags(moved, p, r) & MOUSEEVENTF_XDOWN != 0) == (x_bits(p) != 0),
        (first_flags(moved, p, r) & MOUSEEVENTF_XUP != 0) == (x_bits(p) == 0 && x_bits(r) != 0),
{
    let w = first_flags(moved, p, r);
    assert(w & 0x8000 != 0 && w & 0x4000 != 0 && (w & 0x0001 != 0) == moved
        && (w & 0x0002 != 0) == has_bits(p, 1) && (w & 0x0004 != 0) == has_bits(r, 1)
        && (w & 0x0008 != 0) == has_bits(p, 2) && (w & 0x0010 != 0) == has_bits(r, 2)
        && (w & 0x0020 != 0) == has_bits(p, 4) && (w & 0x0040 != 0) == has_bits(r, 4)
        && (w & 0x0080 != 0) == (x_bits(p) != 0) && (w & 0x0100 != 0) == (x_bits(p) == 0
        && x_bits(r) != 0))
        by (bit_vector)
        requires
            w == first_flags(moved, p, r),
    ;
}

/// In the first mouse record sent for a mouse event, the flags say that the
/// pointer is placed absolutely on the virtual desktop, say `MOVE` exactly
/// when the location changed, say a left, right or middle button down (up)
/// exactly when that button went down (up) since the last mouse event, and
/// say `XDOWN` exactly when an X button went down, else `XUP` exactly when an
/// X button went up; this holds whatever the other buttons did.
pub proof fn lemma_mouse_record_flags(last_position: Point, last: u8, location: Point, now: u8)
    ensures
        ({
            let w = mouse_inputs(last_position, last, location, now)[0].flags;
            &&& w & MOUSEEVENTF_ABSOLUTE != 0
            &&& w & MOUSEEVENTF_VIRTUALDESK != 0
            &&& (w & MOUSEEVENTF_MOVE != 0) == (location != last_position)
            &&& (w & MOUSEEVENTF_LEFTDOWN != 0) == went_down(last, now, PRIMARY_BIT)
            &&& (w & MOUSEEVENTF_LEFTUP != 0) == went_up(last, now, PRIMARY_BIT)
            &&& (w & MOUSEEVENTF_RIGHTDOWN != 0) == went_down(last, now, CONTEXT_BIT)
            &&& (w & MOUSEEVENTF_RIGHTUP != 0) == went_up(last, now, CONTEXT_BIT)
            &&& (w & MOUSEEVENTF_MIDDLEDOWN != 0) == went_down(last, now, SCROLL_BIT)
            &&& (w & MOUSEEVENTF_MIDDLEUP != 0) == went_up(last, now, SCROLL_BIT)
            &&& (w & MOUSEEVENTF_XDOWN != 0) == (went_down(last, now, BACK_BIT) || went_down(
                last,
                now,
                FORWARD_BIT,
            ))
            &&& (w & MOUSEEVENTF_XUP != 0) == (!(went_down(last, now, BACK_BIT) || went_down(
                last,
                now,
                FORWARD_BIT,
            )) && (went_up(last, now, BACK_BIT) || went_up(last, now, FORWARD_BIT)))
        }),
{
    lemma_single_bit_transitions(last, now);
    lemma_x_bits(pressed_bits(last, now));
    lemma_x_bits(released_bits(last, now));
    lemma_first_flag_bits(
        location != last_position,
        pressed_bits(last, now),
        released_bits(last, now),
    );
}

/// A mouse event is sent as two records exactly when one X button went down
/// while the other went up; the second record then releases the X buttons
/// that went up.
pub proof fn lemma_mouse_record_count(last_position: Point, last: u8, location: Point, now: u8)
    ensures
        ({
            let v = mouse_inputs(last_position, last, location, now);
            let crossed = (went_down(last, now, BACK_BIT) && went_up(last, now, FORWARD_BIT)) || (
            went_down(last, now, FORWARD_BIT) && went_up(last, now, BACK_BIT));
            &&& 1 <= v.len() <= 2
            &&& (v.len() == 2) == crossed
            &&& crossed ==> v[1].flags == MOUSEEVENTF_ABSOLUTE | MOUSEEVENTF_VIRTUALDESK
                | MOUSEEVENTF_XUP && v[1].mouse_data == flag_if(
                went_up(last, now, BACK_BIT),
                XBUTTON1,
            ) | flag_if(went_up(last, now, FORWARD_BIT), XBUTTON2)
        }),
{
    lemma_single_bit_transitions(last, now);
}

/// Whether some record says `XUP` for the X button with mouse data bit `x`.
pub open spec fn x_released_in(v: Seq<MouseInput>, x: u32) -> bool {
    exists|i: int|
        #![trigger v[i]]
        0 <= i < v.len() && v[i].flags & MOUSEEVENTF_XUP != 0 && v[i].mouse_data & x != 0
}

/// Whether some record says `XDOWN` for the X button with mouse data bit `x`.
pub open spec fn x_pressed_in(v: Seq<MouseInput>, x: u32) -> bool {
    exists|i: int|
        #![trigger v[i]]
        0 <= i < v.len() && v[i].flags & MOUSEEVENTF_XDOWN != 0 && v[i].mouse_data & x != 0
}

/// Every X button that goes down or up is injected as such, whatever the
/// other buttons do in the same event: some record says `XDOWN` (`XUP`) with
/// the button's bit in its mouse data exactly when the button went down (up).
pub proof fn lemma_x_buttons_injected(last_position: Point, last: u8, location: Point, now: u8)
    ensures
        ({
            let v = mouse_inputs(last_position, last, location, now);
            &&& x_pressed_in(v, XBUTTON1) == went_down(last, now, BACK_BIT)
            &&& x_pressed_in(v, XBUTTON2) == went_down(last, now, FORWARD_BIT)
            &&& x_released_in(v, XBUTTON1) == went_up(last, now, BACK_BIT)
            &&& x_released_in(v, XBUTTON2) == went_up(last, now, FORWARD_BIT)
        }),
{
    let p = pressed_bits(last, now);
    let r = released_bits(last, now);
    let v = mouse_inputs(last_position, last, location, now);
    lemma_single_bit_transitions(last, now);
    lemma_x_bits(p);
    lemma_x_bits(r);
    lemma_first_flag_bits(location != last_position, p, r);
    let up: u32 = MOUSEEVENTF_ABSOLUTE | MOUSEEVENTF_VIRTUALDESK | MOUSEEVENTF_XUP;
    assert(up & MOUSEEVENTF_XUP != 0 && up & MOUSEEVENTF_XDOWN == 0) by (bit_vector)
        requires
            up == MOUSEEVENTF_ABSOLUTE | MOUSEEVENTF_VIRTUALDESK | MOUSEEVENTF_XUP,
    ;
    assert(0u32 & XBUTTON1 == 0 && 0u32 & XBUTTON2 == 0) by (bit_vector);
    let first = v[0];
    if v.len() == 2 {
        let second = v[1];
        assert(second.flags == up);
        assert(x_pressed_in(v, XBUTTON1) == (first.flags & MOUSEEVENTF_XDOWN != 0
            && first.mouse_data & XBUTTON1 != 0));
        assert(x_pressed_in(v, XBUTTON2) == (first.flags & MOUSEEVENTF_XDOWN != 0
            && first.mouse_data & XBUTTON2 != 0));
        assert(x_released_in(v, XBUTTON1) == (second.mouse_data & XBUTTON1 != 0));
        assert(x_released_in(v, XBUTTON2) == (second.mouse_data & XBUTTON2 != 0));
    } else {
        assert(v.len() == 1);
        assert(x_pressed_in(v, XBUTTON1) == (first.flags & MOUSEEVENTF_XDOWN != 0
            && first.mouse_data & XBUTTON1 != 0));
        assert(x_pressed_in(v, XBUTTON2) == (first.flags & MOUSEEVENTF_XDOWN != 0
            && first.mouse_data & XBUTTON2 != 0));
        assert(x_released_in(v, XBUTTON1) == (first.flags & MOUSEEVENTF_XUP != 0
            && first.mouse_data & XBUTTON1 != 0));
        assert(x_released_in(v, XBUTTON2) == (first.flags & MOUSEEVENTF_XUP != 0
            && first.mouse_data & XBUTTON2 != 0));
    }
}

/// Every mouse record sent for a mouse event places the pointer at the
/// event's own location, whatever the buttons did and wherever the pointer was.
pub proof fn lemma_mouse_records_at_event_location(
    last_position: Point,
    last: u8,
    location: Point,
    now: u8,
)
    ensures
        forall|i: int|
            0 <= i < mouse_inputs(last_position, last, location, now).len() ==> {
                &&& #[trigger] mouse_inputs(last_position, last, location, now)[i].dx
                    == location.0 as i32
                &&& mouse_inputs(last_position, last, location, now)[i].dy == location.1 as i32
            },
{
}

/// A touch or pen frame carries the event's stream ID and location, and its
/// pointer flags follow the stream action alone, the same for either device:
/// `Start` is a new pointer, `Update` an update, `End` the pointer going up,
/// `Cancel` a cancelled pointer.
pub proof fn lemma_frame_follows_event(p: PointerEvent)
    ensures
        pointer_frame(p, PT_TOUCH).pointer_flags == pointer_frame(p, PT_PEN).pointer_flags,
        pointer_frame(p, PT_TOUCH).pointer_type == PT_TOUCH,
        pointer_frame(p, PT_PEN).pointer_type == PT_PEN,
        forall|t: u32|
            {
                &&& #[trigger] pointer_frame(p, t).pointer_id == p.stream as u32
                &&& pointer_frame(p, t).x == p.location.0 as i32
                &&& pointer_frame(p, t).y == p.location.1 as i32
                &&& p.stream_action is Start ==> pointer_frame(p, t).pointer_flags
                    == POINTER_FLAG_NEW
                &&& p.stream_action is Update ==> pointer_frame(p, t).pointer_flags
                    == POINTER_FLAG_UPDATE
                &&& p.stream_action is End ==> pointer_frame(p, t).pointer_flags
                    == POINTER_FLAG_UP
                &&& p.stream_action is Cancel ==> pointer_frame(p, t).pointer_flags
                    == POINTER_FLAG_CANCELED
            },
{
}

/// No button goes both down and up in one mouse event, and the buttons that
/// went down or up are exactly those that differ.
pub proof fn lemma_pressed_released_disjoint(last: u8, now: u8)
    ensures
        pressed_bits(last, now) & released_bits(last, now) == 0,
        pressed_bits(last, now) | released_bits(last, now) == last ^ now,
{
    assert((now & !last) & (last & !now) == 0) by (bit_vector);
    assert((now & !last) | (last & !now) == last ^ now) by (bit_vector);
}

/// A mouse event that repeats the last reported location and buttons, as the
/// one right after it when a source sends the same event twice, is sent as a
/// single absolute record with no flag or button data besides.
pub proof fn lemma_repeated_mouse_event(position: Point, buttons: u8)
    ensures
        mouse_inputs(position, buttons, position, buttons) == seq![
            MouseInput {
                dx: position.0 as i32,
                dy: position.1 as i32,
                mouse_data: 0,
                flags: MOUSEEVENTF_ABSOLUTE | MOUSEEVENTF_VIRTUALDESK,
            },
        ],
{
    assert(buttons & !buttons == 0) by (bit_vector);
    assert(has_bits(0, 8) == false && has_bits(0, 16) == false) by (bit_vector);
    assert(0x8000u32 | 0x4000u32 | 0u32 | 0u32 | 0u32 | 0u32 | 0u32 | 0u32 | 0u32 | 0u32
        == 0x8000u32 | 0x4000u32) by (bit_vector);
    assert(has_bits(0, 1) == false && has_bits(0, 2) == false && has_bits(0, 4) == false)
        by (bit_vector);
    assert(x_bits(0) == 0) by (bit_vector);
}

} // verus!
