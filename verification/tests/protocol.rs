use rinput::buttons::{button_of_magnitude, magnitude_of_button, ButtonId};
use rinput::decoder::{
    actions_of_event, classify_opcode, decode_stream, pointer_event, DeviceAction, Event,
    OpcodeClass, StreamEnd,
};
use rinput::wire::take_i16;

const ALL_BUTTONS: [ButtonId; 10] = [
    ButtonId::A,
    ButtonId::B,
    ButtonId::X,
    ButtonId::Y,
    ButtonId::TL,
    ButtonId::TL2,
    ButtonId::TR,
    ButtonId::TR2,
    ButtonId::Start,
    ButtonId::Select,
];

#[test]
fn take_i16_reads_little_endian() {
    assert_eq!(take_i16(&[0x34, 0x12], 0), Some(0x1234));
    assert_eq!(take_i16(&[0x0A, 0x00], 0), Some(10));
    assert_eq!(take_i16(&[0xFF, 0xFF], 0), Some(-1));
    assert_eq!(take_i16(&[0x00, 0x80], 0), Some(-32768));
    assert_eq!(take_i16(&[0xFF, 0x7F], 0), Some(32767));
}

#[test]
fn take_i16_respects_offset() {
    let bytes = [0xAA, 0x0A, 0x00, 0x14, 0x00];
    assert_eq!(take_i16(&bytes, 1), Some(10));
    assert_eq!(take_i16(&bytes, 3), Some(20));
}

#[test]
fn take_i16_needs_two_bytes() {
    assert_eq!(take_i16(&[], 0), None);
    assert_eq!(take_i16(&[0x01], 0), None);
    assert_eq!(take_i16(&[0x01, 0x02], 1), None);
}

#[test]
fn classify_covers_the_protocol() {
    assert_eq!(classify_opcode(0x00), OpcodeClass::PointerTag);
    assert_eq!(
        classify_opcode(0x01),
        OpcodeClass::ButtonOp { id: ButtonId::A, pressed: true }
    );
    assert_eq!(
        classify_opcode(0x0A),
        OpcodeClass::ButtonOp { id: ButtonId::Select, pressed: true }
    );
    assert_eq!(
        classify_opcode(0xFF),
        OpcodeClass::ButtonOp { id: ButtonId::A, pressed: false }
    );
    assert_eq!(
        classify_opcode(0xF6),
        OpcodeClass::ButtonOp { id: ButtonId::Select, pressed: false }
    );
    assert_eq!(classify_opcode(0x0B), OpcodeClass::Invalid);
    assert_eq!(classify_opcode(0x7F), OpcodeClass::Invalid);
    assert_eq!(classify_opcode(0x80), OpcodeClass::Invalid);
    assert_eq!(classify_opcode(0xF5), OpcodeClass::Invalid);
}

#[test]
fn button_magnitudes_round_trip() {
    for (i, b) in ALL_BUTTONS.iter().enumerate() {
        let m = magnitude_of_button(*b);
        assert_eq!(m as usize, i + 1);
        assert_eq!(button_of_magnitude(m), Some(*b));
    }
    assert_eq!(button_of_magnitude(0), None);
    assert_eq!(button_of_magnitude(11), None);
}

#[test]
fn each_press_opcode_presses_its_button_once() {
    for b in ALL_BUTTONS.iter() {
        let op = magnitude_of_button(*b);
        let r = decode_stream(&[op]);
        assert_eq!(r.actions, vec![DeviceAction::Press(*b), DeviceAction::Commit]);
        assert_eq!(r.end, StreamEnd::Exhausted);
        assert_eq!(r.consumed, 1);
    }
}

#[test]
fn each_release_opcode_releases_its_button_once() {
    for b in ALL_BUTTONS.iter() {
        let op = (256 - magnitude_of_button(*b) as u16) as u8;
        let r = decode_stream(&[op]);
        assert_eq!(r.actions, vec![DeviceAction::Release(*b), DeviceAction::Commit]);
        assert_eq!(r.end, StreamEnd::Exhausted);
        assert_eq!(r.consumed, 1);
    }
}

#[test]
fn pointer_frame_updates_both_axes_then_commits() {
    let r = decode_stream(&[0x00, 0x0A, 0x00, 0x14, 0x00]);
    assert_eq!(
        r.actions,
        vec![
            DeviceAction::PositionX(10),
            DeviceAction::PositionY(20),
            DeviceAction::Commit,
        ]
    );
    assert_eq!(r.end, StreamEnd::Exhausted);
    assert_eq!(r.consumed, 5);
}

#[test]
fn pointer_frame_carries_negative_values() {
    let r = decode_stream(&[0x00, 0xFF, 0xFF, 0x00, 0x80]);
    assert_eq!(
        r.actions,
        vec![
            DeviceAction::PositionX(-1),
            DeviceAction::PositionY(-32768),
            DeviceAction::Commit,
        ]
    );
    assert_eq!(r.end, StreamEnd::Exhausted);
}

#[test]
fn pointer_event_decodes_four_payload_bytes() {
    let e = pointer_event(&[0x0A, 0x00, 0x14, 0x00]);
    assert_eq!(e, Event::Pointer { x: 10, y: 20 });
}

#[test]
fn actions_of_button_event_end_in_one_commit() {
    let press = actions_of_event(Event::Button { id: ButtonId::TR2, pressed: true });
    assert_eq!(press, vec![DeviceAction::Press(ButtonId::TR2), DeviceAction::Commit]);
    let release = actions_of_event(Event::Button { id: ButtonId::TR2, pressed: false });
    assert_eq!(release, vec![DeviceAction::Release(ButtonId::TR2), DeviceAction::Commit]);
}

#[test]
fn bad_opcode_stops_the_stream_unread() {
    let r = decode_stream(&[0x7F, 0x01, 0x02, 0x03]);
    assert_eq!(r.actions, vec![]);
    assert_eq!(r.end, StreamEnd::BadOpcode);
    assert_eq!(r.consumed, 1);
}

#[test]
fn bad_opcode_after_events_keeps_earlier_actions() {
    let r = decode_stream(&[0x01, 0x0B, 0x01]);
    assert_eq!(r.actions, vec![DeviceAction::Press(ButtonId::A), DeviceAction::Commit]);
    assert_eq!(r.end, StreamEnd::BadOpcode);
    assert_eq!(r.consumed, 2);
}

#[test]
fn truncated_pointer_frame_performs_no_action() {
    let r = decode_stream(&[0x00, 0x0A, 0x00]);
    assert_eq!(r.actions, vec![]);
    assert_eq!(r.end, StreamEnd::Truncated);
    assert_eq!(r.consumed, 3);
}

#[test]
fn empty_stream_ends_cleanly() {
    let r = decode_stream(&[]);
    assert_eq!(r.actions, vec![]);
    assert_eq!(r.end, StreamEnd::Exhausted);
    assert_eq!(r.consumed, 0);
}

#[test]
fn back_to_back_events_each_commit_once() {
    let r = decode_stream(&[0x02, 0xFE, 0x00, 0x01, 0x00, 0x02, 0x00]);
    assert_eq!(
        r.actions,
        vec![
            DeviceAction::Press(ButtonId::B),
            DeviceAction::Commit,
            DeviceAction::Release(ButtonId::B),
            DeviceAction::Commit,
            DeviceAction::PositionX(1),
            DeviceAction::PositionY(2),
            DeviceAction::Commit,
        ]
    );
    assert_eq!(r.end, StreamEnd::Exhausted);
    assert_eq!(r.consumed, 7);
}
