//! Remote stylus: pointer events carried from an event source to an event
//! target over the network.
//!
//! - `event`: the pointer events themselves.
//! - `protocol`: the messages that sources and targets exchange, and peer addresses.
//! - `source` and `target`: what each role does with the commands, packets and
//!   socket events it gets.
//! - `injection`: what a Windows target injects for each pointer event.
mod error;
mod event;
mod injection;
mod protocol;
mod source;
mod target;

pub use error::Error;
pub use event::{
    has_bits, pointer_type_of, MouseButtons, Point, PointerData, PointerEvent, PointerType,
    StreamAction, ALL_BITS, BACK_BIT, CONTEXT_BIT, FORWARD_BIT, PRIMARY_BIT, SCROLL_BIT,
};
pub use injection::{
    first_data, first_flags, flag_if, lemma_mouse_record_count, lemma_mouse_record_flags,
    lemma_x_buttons_injected, lemma_mouse_records_at_event_location, lemma_frame_follows_event,
    x_bits, x_pressed_in, x_released_in,
    lemma_pressed_released_disjoint, lemma_repeated_mouse_event, mouse_inputs, pointer_frame,
    pressed_bits, released_bits, stream_flags, went_down, went_up, x_buttons, x_crossed,
    Injection, MouseInput, PointerFrame, TargetServicer, MOUSEEVENTF_ABSOLUTE, MOUSEEVENTF_LEFTDOWN,
    MOUSEEVENTF_LEFTUP, MOUSEEVENTF_MIDDLEDOWN, MOUSEEVENTF_MIDDLEUP, MOUSEEVENTF_MOVE,
    MOUSEEVENTF_RIGHTDOWN, MOUSEEVENTF_RIGHTUP, MOUSEEVENTF_VIRTUALDESK, MOUSEEVENTF_XDOWN,
    MOUSEEVENTF_XUP, POINTER_FLAG_CANCELED, POINTER_FLAG_NEW, POINTER_FLAG_UP, POINTER_FLAG_UPDATE,
    PT_PEN, PT_TOUCH, XBUTTON1, XBUTTON2,
};
pub use protocol::{same_endpoint, Message, Outgoing, Packet, PeerAddr, SocketEvent, SocketFamily};
pub use source::{
    acknowledged_before, command_step, is_acknowledgement_from, connected_before, input_step, is_connect,
    lemma_no_pointer_event_before_acknowledgement, lemma_socket_events_keep_session, lemma_unacknowledged_source_only_connects,
    no_connect_between, packet_step, sent_at, session_after, SourceCommand, SourceInput,
    SourceSession,
};
pub use target::{
    lemma_handshake_delivers, lemma_target_ignores_connection_events, lemma_target_roles, target_message_step, target_packet, target_step,
    TargetAction,
};
