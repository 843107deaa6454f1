use libremotestylus::{
    Injection, MouseButtons, MouseInput, Point, PointerData, PointerEvent, PointerFrame,
    StreamAction, TargetServicer, MOUSEEVENTF_ABSOLUTE, MOUSEEVENTF_LEFTDOWN, MOUSEEVENTF_LEFTUP,
    MOUSEEVENTF_MIDDLEDOWN, MOUSEEVENTF_MIDDLEUP, MOUSEEVENTF_MOVE, MOUSEEVENTF_RIGHTDOWN,
    MOUSEEVENTF_RIGHTUP, MOUSEEVENTF_VIRTUALDESK, MOUSEEVENTF_XDOWN, MOUSEEVENTF_XUP,
    POINTER_FLAG_CANCELED, POINTER_FLAG_NEW, POINTER_FLAG_UP, POINTER_FLAG_UPDATE, PT_PEN,
    PT_TOUCH, XBUTTON1, XBUTTON2,
};

const BASE: u32 = MOUSEEVENTF_ABSOLUTE | MOUSEEVENTF_VIRTUALDESK;

fn mouse(x: u16, y: u16, buttons: MouseButtons) -> PointerEvent {
    PointerEvent {
        stream_action: StreamAction::Update,
        stream: 0,
        location: Point(x, y),
        data: PointerData::Mouse { buttons },
    }
}

fn records(i: Injection) -> Vec<MouseInput> {
    match i {
        Injection::Mouse(v) => v,
        _ => panic!("not a mouse injection"),
    }
}

#[test]
fn flag_values() {
    assert_eq!(BASE, 0xC000);
    assert_eq!(MOUSEEVENTF_MOVE, 0x0001);
    assert_eq!(MOUSEEVENTF_XDOWN, 0x0080);
    assert_eq!(MOUSEEVENTF_XUP, 0x0100);
    assert_eq!(POINTER_FLAG_CANCELED, 0x8000);
}

#[test]
fn finger_becomes_touch_frame() {
    let mut s = TargetServicer::new();
    let before = s;
    let e = PointerEvent {
        stream_action: StreamAction::Start,
        stream: 4,
        location: Point(100, 200),
        data: PointerData::Finger,
    };
    assert_eq!(
        s.update_pointer(e),
        Injection::Touch(PointerFrame {
            pointer_id: 4,
            pointer_flags: POINTER_FLAG_NEW,
            x: 100,
            y: 200,
            pointer_type: PT_TOUCH
        })
    );
    assert_eq!(s, before);
}

#[test]
fn stylus_becomes_pen_frame() {
    let mut s = TargetServicer::new();
    let mut e = PointerEvent {
        stream_action: StreamAction::Update,
        stream: 1,
        location: Point(65535, 3),
        data: PointerData::Stylus,
    };
    let expect = |flags| {
        Injection::Pen(PointerFrame { pointer_id: 1, pointer_flags: flags, x: 65535, y: 3, pointer_type: PT_PEN })
    };
    assert_eq!(s.update_pointer(e), expect(POINTER_FLAG_UPDATE));
    e.stream_action = StreamAction::End;
    assert_eq!(s.update_pointer(e), expect(POINTER_FLAG_UP));
    e.stream_action = StreamAction::Cancel;
    assert_eq!(s.update_pointer(e), expect(POINTER_FLAG_CANCELED));
}

#[test]
fn repeated_mouse_event_is_bare() {
    let mut s = TargetServicer::new();
    let e = mouse(10, 20, MouseButtons::primary());
    s.update_pointer(e);
    assert_eq!(s.last_mouse_position, Point(10, 20));
    assert_eq!(s.last_buttons, MouseButtons::primary());
    assert_eq!(
        records(s.update_pointer(e)),
        vec![MouseInput { dx: 10, dy: 20, mouse_data: 0, flags: BASE }]
    );
}

#[test]
fn first_mouse_event_at_origin_does_not_move() {
    let mut s = TargetServicer::new();
    assert_eq!(
        records(s.update_pointer(mouse(0, 0, MouseButtons::empty()))),
        vec![MouseInput { dx: 0, dy: 0, mouse_data: 0, flags: BASE }]
    );
    assert_eq!(
        records(s.update_pointer(mouse(5, 0, MouseButtons::empty()))),
        vec![MouseInput { dx: 5, dy: 0, mouse_data: 0, flags: BASE | MOUSEEVENTF_MOVE }]
    );
}

#[test]
fn left_press_and_release() {
    let mut s = TargetServicer::new();
    assert_eq!(
        records(s.update_pointer(mouse(0, 0, MouseButtons::primary()))),
        vec![MouseInput { dx: 0, dy: 0, mouse_data: 0, flags: BASE | MOUSEEVENTF_LEFTDOWN }]
    );
    assert_eq!(
        records(s.update_pointer(mouse(3, 4, MouseButtons::empty()))),
        vec![MouseInput {
            dx: 3,
            dy: 4,
            mouse_data: 0,
            flags: BASE | MOUSEEVENTF_MOVE | MOUSEEVENTF_LEFTUP
        }]
    );
}

#[test]
fn right_and_middle_transitions() {
    let mut s = TargetServicer::new();
    s.update_pointer(mouse(0, 0, MouseButtons::context()));
    assert_eq!(
        records(s.update_pointer(mouse(0, 0, MouseButtons::scroll()))),
        vec![MouseInput {
            dx: 0,
            dy: 0,
            mouse_data: 0,
            flags: BASE | MOUSEEVENTF_RIGHTUP | MOUSEEVENTF_MIDDLEDOWN
        }]
    );
    assert_eq!(
        records(s.update_pointer(mouse(0, 0, MouseButtons::context()))),
        vec![MouseInput {
            dx: 0,
            dy: 0,
            mouse_data: 0,
            flags: BASE | MOUSEEVENTF_RIGHTDOWN | MOUSEEVENTF_MIDDLEUP
        }]
    );
}

#[test]
fn x_buttons_down_and_up() {
    let mut s = TargetServicer::new();
    let both = MouseButtons::back().union(MouseButtons::forward());
    assert_eq!(
        records(s.update_pointer(mouse(0, 0, both))),
        vec![MouseInput { dx: 0, dy: 0, mouse_data: XBUTTON1 | XBUTTON2, flags: BASE | MOUSEEVENTF_XDOWN }]
    );
    assert_eq!(
        records(s.update_pointer(mouse(0, 0, MouseButtons::empty()))),
        vec![MouseInput { dx: 0, dy: 0, mouse_data: XBUTTON1 | XBUTTON2, flags: BASE | MOUSEEVENTF_XUP }]
    );
}

#[test]
fn crossed_x_buttons_need_two_records() {
    let mut s = TargetServicer::new();
    s.update_pointer(mouse(7, 8, MouseButtons::forward()));
    assert_eq!(
        records(s.update_pointer(mouse(7, 8, MouseButtons::back()))),
        vec![
            MouseInput { dx: 7, dy: 8, mouse_data: XBUTTON1, flags: BASE | MOUSEEVENTF_XDOWN },
            MouseInput { dx: 7, dy: 8, mouse_data: XBUTTON2, flags: BASE | MOUSEEVENTF_XUP },
        ]
    );
    assert_eq!(s.last_buttons, MouseButtons::back());
}

#[test]
fn unnamed_bits_inject_nothing() {
    let mut s = TargetServicer::new();
    assert_eq!(
        records(s.update_pointer(mouse(0, 0, MouseButtons::from_bits_retain(0x80)))),
        vec![MouseInput { dx: 0, dy: 0, mouse_data: 0, flags: BASE }]
    );
}

#[test]
fn x_release_with_left_press_is_injected() {
    let mut s = TargetServicer::new();
    s.update_pointer(mouse(1, 1, MouseButtons::back()));
    assert_eq!(
        records(s.update_pointer(mouse(1, 1, MouseButtons::primary()))),
        vec![MouseInput {
            dx: 1,
            dy: 1,
            mouse_data: XBUTTON1,
            flags: BASE | MOUSEEVENTF_LEFTDOWN | MOUSEEVENTF_XUP
        }]
    );
    assert_eq!(s.last_buttons, MouseButtons::primary());
}

#[test]
fn x_press_with_right_release_is_injected() {
    let mut s = TargetServicer::new();
    s.update_pointer(mouse(0, 0, MouseButtons::context()));
    assert_eq!(
        records(s.update_pointer(mouse(0, 0, MouseButtons::forward()))),
        vec![MouseInput {
            dx: 0,
            dy: 0,
            mouse_data: XBUTTON2,
            flags: BASE | MOUSEEVENTF_RIGHTUP | MOUSEEVENTF_XDOWN
        }]
    );
}
