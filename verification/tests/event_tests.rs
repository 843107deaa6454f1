use libremotestylus::{MouseButtons, Point, PointerData, PointerEvent, PointerType, StreamAction};

#[test]
fn point_default_is_origin() {
    assert_eq!(Point::default(), Point(0, 0));
}

#[test]
fn button_bits() {
    assert_eq!(MouseButtons::primary().bits(), 0b00001);
    assert_eq!(MouseButtons::context().bits(), 0b00010);
    assert_eq!(MouseButtons::scroll().bits(), 0b00100);
    assert_eq!(MouseButtons::back().bits(), 0b01000);
    assert_eq!(MouseButtons::forward().bits(), 0b10000);
    assert_eq!(MouseButtons::all().bits(), 0b11111);
    assert_eq!(MouseButtons::empty().bits(), 0);
    assert_eq!(MouseButtons::default(), MouseButtons::empty());
}

#[test]
fn from_bits_refuses_unknown_bits() {
    assert_eq!(MouseButtons::from_bits(0b10101), Some(MouseButtons::from_bits_retain(0b10101)));
    assert_eq!(MouseButtons::from_bits(0b100000), None);
    assert_eq!(MouseButtons::from_bits_truncate(0xff).bits(), 0b11111);
    assert_eq!(MouseButtons::from_bits_retain(0xff).bits(), 0xff);
}

#[test]
fn set_operations() {
    let a = MouseButtons::primary().union(MouseButtons::back());
    let b = MouseButtons::back().union(MouseButtons::forward());
    assert_eq!(a.bits(), 0b01001);
    assert_eq!(a.intersection(b).bits(), 0b01000);
    assert_eq!(a.difference(b).bits(), 0b00001);
    assert_eq!(b.difference(a).bits(), 0b10000);
    assert_eq!(a.symmetric_difference(b).bits(), 0b10001);
    assert_eq!(a.complement().bits(), 0b10110);
    assert!(a.contains(MouseButtons::primary()));
    assert!(!a.contains(b));
    assert!(a.intersects(b));
    assert!(!a.intersects(MouseButtons::scroll()));
    assert!(MouseButtons::empty().is_empty());
    assert!(!a.is_empty());
    assert!(MouseButtons::all().is_all());
    assert!(!a.is_all());
}

#[test]
fn set_mutation() {
    let mut a = MouseButtons::empty();
    a.insert(MouseButtons::context());
    assert_eq!(a.bits(), 0b00010);
    a.toggle(MouseButtons::scroll().union(MouseButtons::context()));
    assert_eq!(a.bits(), 0b00100);
    a.set(MouseButtons::primary(), true);
    assert_eq!(a.bits(), 0b00101);
    a.set(MouseButtons::scroll(), false);
    assert_eq!(a.bits(), 0b00001);
    a.remove(MouseButtons::primary());
    assert!(a.is_empty());
}

#[test]
fn pointer_type_of_data() {
    assert_eq!(
        PointerType::from(PointerData::Mouse { buttons: MouseButtons::primary() }),
        PointerType::Mouse
    );
    assert_eq!(PointerType::from(PointerData::Finger), PointerType::Finger);
    assert_eq!(PointerType::from(PointerData::Stylus), PointerType::Stylus);
}

#[test]
fn pointer_event_fields() {
    let e = PointerEvent {
        stream_action: StreamAction::Start,
        stream: 7,
        location: Point(2048, 1536),
        data: PointerData::Finger,
    };
    assert_eq!(e.location, Point(2048, 1536));
    assert_eq!(e.stream, 7);
    assert_eq!(e.stream_action, StreamAction::Start);
}
