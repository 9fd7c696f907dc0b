//! The event decoder: classification of opcodes, the actions each event
//! drives on the device, and the meaning of a whole event stream.

use vstd::prelude::*;

use crate::buttons::{
    button_of_magnitude, lemma_button_magnitude_round_trip, spec_button_of_magnitude,
    spec_magnitude, ButtonId,
};
use crate::wire::{le16_bytes_of, le16_signed, lemma_le16_round_trip, take_i16};

verus! {

/// One primitive operation on the device: an absolute axis update, a button
/// edge, or the commit that publishes the pending updates as one input frame.
#[derive(Clone, Copy, Debug, PartialEq, Eq, Structural)]
pub enum DeviceAction {
    PositionX(i16),
    PositionY(i16),
    Press(ButtonId),
    Release(ButtonId),
    Commit,
}

/// One decoded protocol event.
#[derive(Clone, Copy, Debug, PartialEq, Eq, Structural)]
pub enum Event {
    Pointer { x: i16, y: i16 },
    Button { id: ButtonId, pressed: bool },
}

/// What an opcode byte announces: a pointer frame, a button edge, or a value
/// outside the protocol.
#[derive(Clone, Copy, Debug, PartialEq, Eq, Structural)]
pub enum OpcodeClass {
    PointerTag,
    ButtonOp { id: ButtonId, pressed: bool },
    Invalid,
}

/// Why decoding of a stream stopped: the stream ended cleanly at an opcode
/// boundary, a pointer payload was cut short, or an opcode outside the
/// protocol arrived.
#[derive(Clone, Copy, Debug, PartialEq, Eq, Structural)]
pub enum StreamEnd {
    Exhausted,
    Truncated,
    BadOpcode,
}

/// An opcode byte as the signed 8-bit value the protocol reads it as.
pub open spec fn opcode_signed(op: u8) -> int {
    if op < 128 {
        op as int
    } else {
        op - 256
    }
}

/// The class of an opcode byte: `0x00` opens a pointer frame, signed
/// magnitudes 1..=10 press a button, -1..=-10 release one, and everything
/// else is outside the protocol.
pub open spec fn spec_classify(op: u8) -> OpcodeClass {
    if op == 0 {
        OpcodeClass::PointerTag
    } else if 1 <= opcode_signed(op) && opcode_signed(op) <= 10 {
        OpcodeClass::ButtonOp {
            id: spec_button_of_magnitude(opcode_signed(op))->0,
            pressed: true,
        }
    } else if -10 <= opcode_signed(op) && opcode_signed(op) <= -1 {
        OpcodeClass::ButtonOp {
            id: spec_button_of_magnitude(-opcode_signed(op))->0,
            pressed: false,
        }
    } else {
        OpcodeClass::Invalid
    }
}

/// Classifies one opcode byte.
pub fn classify_opcode(op: u8) -> (c: OpcodeClass)
    ensures
        c == spec_classify(op),
{
    if op == 0 {
        OpcodeClass::PointerTag
    } else if op <= 10 {
        let id = button_of_magnitude(op).unwrap();
        OpcodeClass::ButtonOp { id, pressed: true }
    } else if op >= 246 {
        let id = button_of_magnitude((255 - op) + 1).unwrap();
        OpcodeClass::ButtonOp { id, pressed: false }
    } else {
        OpcodeClass::Invalid
    }
}

/// The device actions one event drives, ending in its single commit.
pub open spec fn spec_event_actions(e: Event) -> Seq<DeviceAction> {
    match e {
        Event::Pointer { x, y } => seq![
            DeviceAction::PositionX(x),
            DeviceAction::PositionY(y),
            DeviceAction::Commit,
        ],
        Event::Button { id, pressed } => if pressed {
            seq![DeviceAction::Press(id), DeviceAction::Commit]
        } else {
            seq![DeviceAction::Release(id), DeviceAction::Commit]
        },
    }
}

/// The actions to perform for one event: both axis updates of a pointer
/// frame, or the one edge of a button event, followed by exactly one commit.
pub fn actions_of_event(e: Event) -> (v: Vec<DeviceAction>)
    ensures
        v@ == spec_event_actions(e),
{
    let mut v: Vec<DeviceAction> = Vec::new();
    match e {
        Event::Pointer { x, y } => {
            v.push(DeviceAction::PositionX(x));
            v.push(DeviceAction::PositionY(y));
            v.push(DeviceAction::Commit);
        },
        Event::Button { id, pressed } => {
            if pressed {
                v.push(DeviceAction::Press(id));
            } else {
                v.push(DeviceAction::Release(id));
            }
            v.push(DeviceAction::Commit);
        },
    }
    proof {
        assert(v@ =~= spec_event_actions(e));
    }
    v
}

/// Decodes the four payload bytes that follow a pointer opcode into the
/// pointer event they carry.
pub fn pointer_event(payload: &[u8]) -> (e: Event)
    requires
        payload@.len() == 4,
    ensures
        e == (Event::Pointer {
            x: le16_signed(payload@[0], payload@[1]) as i16,
            y: le16_signed(payload@[2], payload@[3]) as i16,
        }),
{
    let x = take_i16(payload, 0).unwrap();
    let y = take_i16(payload, 2).unwrap();
    Event::Pointer { x, y }
}

/// The device actions a whole byte stream drives, in order. Decoding stops
/// at the first opcode outside the protocol and performs nothing for a
/// pointer frame whose payload the stream cuts short.
pub open spec fn spec_decode_actions(s: Seq<u8>) -> Seq<DeviceAction>
    decreases s.len(),
{
    if s.len() == 0 {
        Seq::<DeviceAction>::empty()
    } else {
        match spec_classify(s[0]) {
            OpcodeClass::PointerTag => if s.len() >= 5 {
                spec_event_actions(Event::Pointer {
                    x: le16_signed(s[1], s[2]) as i16,
                    y: le16_signed(s[3], s[4]) as i16,
                }) + spec_decode_actions(s.skip(5))
            } else {
                Seq::<DeviceAction>::empty()
            },
            OpcodeClass::ButtonOp { id, pressed } => spec_event_actions(
                Event::Button { id, pressed },
            ) + spec_decode_actions(s.skip(1)),
            OpcodeClass::Invalid => Seq::<DeviceAction>::empty(),
        }
    }
}

/// How decoding of a byte stream ends.
pub open spec fn spec_decode_end(s: Seq<u8>) -> StreamEnd
    decreases s.len(),
{
    if s.len() == 0 {
        StreamEnd::Exhausted
    } else {
        match spec_classify(s[0]) {
            OpcodeClass::PointerTag => if s.len() >= 5 {
                spec_decode_end(s.skip(5))
            } else {
                StreamEnd::Truncated
            },
            OpcodeClass::ButtonOp { id, pressed } => spec_decode_end(s.skip(1)),
            OpcodeClass::Invalid => StreamEnd::BadOpcode,
        }
    }
}

/// How many bytes of the stream the decoder reads before it stops.
pub open spec fn spec_decode_consumed(s: Seq<u8>) -> int
    decreases s.len(),
{
    if s.len() == 0 {
        0
    } else {
        match spec_classify(s[0]) {
            OpcodeClass::PointerTag => if s.len() >= 5 {
                5 + spec_decode_consumed(s.skip(5))
            } else {
                s.len() as int
            },
            OpcodeClass::ButtonOp { id, pressed } => 1 + spec_decode_consumed(s.skip(1)),
            OpcodeClass::Invalid => 1,
        }
    }
}

/// Everything a decoded stream amounts to: the actions performed in order,
/// why decoding stopped, and how many bytes were read.
pub struct DecodeResult {
    pub actions: Vec<DeviceAction>,
    pub end: StreamEnd,
    pub consumed: usize,
}

/// Decodes a whole event stream.
pub fn decode_stream(bytes: &[u8]) -> (r: DecodeResult)
    ensures
        r.actions@ == spec_decode_actions(bytes@),
        r.end == spec_decode_end(bytes@),
        r.consumed == spec_decode_consumed(bytes@),
{
    let mut actions: Vec<DeviceAction> = Vec::new();
    let mut i: usize = 0;
    proof {
        assert(bytes@.skip(0) =~= bytes@);
        assert(Seq::<DeviceAction>::empty() + spec_decode_actions(bytes@) =~= spec_decode_actions(
            bytes@,
        ));
    }
    loop
        invariant
            i <= bytes@.len(),
            spec_decode_actions(bytes@) == actions@ + spec_decode_actions(bytes@.skip(i as int)),
            spec_decode_end(bytes@) == spec_decode_end(bytes@.skip(i as int)),
            spec_decode_consumed(bytes@) == i + spec_decode_consumed(bytes@.skip(i as int)),
        decreases bytes@.len() - i,
    {
        let ghost s = bytes@.skip(i as int);
        if i == bytes.len() {
            proof {
                assert(s =~= Seq::<u8>::empty());
                assert(actions@ + Seq::<DeviceAction>::empty() =~= actions@);
            }
            return DecodeResult { actions, end: StreamEnd::Exhausted, consumed: i };
        }
        let op = bytes[i];
        proof {
            assert(s[0] == op);
        }
        match classify_opcode(op) {
            OpcodeClass::PointerTag => {
                if bytes.len() - i >= 5 {
                    let x = take_i16(bytes, i + 1).unwrap();
                    let y = take_i16(bytes, i + 3).unwrap();
                    let ghost before = actions@;
                    actions.push(DeviceAction::PositionX(x));
                    actions.push(DeviceAction::PositionY(y));
                    actions.push(DeviceAction::Commit);
                    proof {
                        let head = spec_event_actions(Event::Pointer { x, y });
                        assert(s[1] == bytes@[i + 1] && s[2] == bytes@[i + 2]);
                        assert(s[3] == bytes@[i + 3] && s[4] == bytes@[i + 4]);
                        assert(s.skip(5) =~= bytes@.skip(i + 5));
                        assert(spec_decode_actions(s) == head + spec_decode_actions(s.skip(5)));
                        assert(actions@ =~= before + head);
                        assert((before + head) + spec_decode_actions(s.skip(5)) =~= before + (head
                            + spec_decode_actions(s.skip(5))));
                    }
                    i = i + 5;
                } else {
                    proof {
                        assert(actions@ + Seq::<DeviceAction>::empty() =~= actions@);
                        assert(spec_decode_consumed(s) == s.len());
                    }
                    return DecodeResult { actions, end: StreamEnd::Truncated, consumed: bytes.len() };
                }
            },
            OpcodeClass::ButtonOp { id, pressed } => {
                let ghost before = actions@;
                if pressed {
                    actions.push(DeviceAction::Press(id));
                } else {
                    actions.push(DeviceAction::Release(id));
                }
                actions.push(DeviceAction::Commit);
                proof {
                    let head = spec_event_actions(Event::Button { id, pressed });
                    assert(s.skip(1) =~= bytes@.skip(i + 1));
                    assert(spec_decode_actions(s) == head + spec_decode_actions(s.skip(1)));
                    assert(actions@ =~= before + head);
                    assert((before + head) + spec_decode_actions(s.skip(1)) =~= before + (head
                        + spec_decode_actions(s.skip(1))));
                }
                i = i + 1;
            },
            OpcodeClass::Invalid => {
                proof {
                    assert(actions@ + Seq::<DeviceAction>::empty() =~= actions@);
                }
                return DecodeResult { actions, end: StreamEnd::BadOpcode, consumed: i + 1 };
            },
        }
    }
}

/// A complete pointer frame drives exactly one X update with the frame's x,
/// one Y update with its y, and one commit, in that order, and decoding then
/// continues with the bytes that follow.
pub proof fn lemma_pointer_frame_actions(x: i16, y: i16, rest: Seq<u8>)
    ensures
        spec_decode_actions(seq![0u8] + le16_bytes_of(x) + le16_bytes_of(y) + rest) == seq![
            DeviceAction::PositionX(x),
            DeviceAction::PositionY(y),
            DeviceAction::Commit,
        ] + spec_decode_actions(rest),
        spec_decode_end(seq![0u8] + le16_bytes_of(x) + le16_bytes_of(y) + rest) == spec_decode_end(
            rest,
        ),
{
    let s = seq![0u8] + le16_bytes_of(x) + le16_bytes_of(y) + rest;
    lemma_le16_round_trip(x);
    lemma_le16_round_trip(y);
    assert(s[0] == 0);
    assert(s[1] == le16_bytes_of(x)[0] && s[2] == le16_bytes_of(x)[1]);
    assert(s[3] == le16_bytes_of(y)[0] && s[4] == le16_bytes_of(y)[1]);
    assert(s.skip(5) =~= rest);
    assert(spec_event_actions(Event::Pointer { x, y }) =~= seq![
        DeviceAction::PositionX(x),
        DeviceAction::PositionY(y),
        DeviceAction::Commit,
    ]);
}

/// A button's positive opcode presses exactly that button and commits once,
/// and decoding then continues with the bytes that follow.
pub proof fn lemma_button_press_actions(b: ButtonId, rest: Seq<u8>)
    ensures
        spec_decode_actions(seq![spec_magnitude(b) as u8] + rest) == seq![
            DeviceAction::Press(b),
            DeviceAction::Commit,
        ] + spec_decode_actions(rest),
        spec_decode_end(seq![spec_magnitude(b) as u8] + rest) == spec_decode_end(rest),
{
    let s = seq![spec_magnitude(b) as u8] + rest;
    lemma_button_magnitude_round_trip(b, spec_magnitude(b));
    assert(1 <= spec_magnitude(b) <= 10);
    assert(s[0] == spec_magnitude(b) as u8);
    assert(opcode_signed(s[0]) == spec_magnitude(b));
    assert(s.skip(1) =~= rest);
    assert(spec_event_actions(Event::Button { id: b, pressed: true }) =~= seq![
        DeviceAction::Press(b),
        DeviceAction::Commit,
    ]);
}

/// A button's negative opcode releases exactly that button and commits once,
/// and decoding then continues with the bytes that follow.
pub proof fn lemma_button_release_actions(b: ButtonId, rest: Seq<u8>)
    ensures
        spec_decode_actions(seq![(256 - spec_magnitude(b)) as u8] + rest) == seq![
            DeviceAction::Release(b),
            DeviceAction::Commit,
        ] + spec_decode_actions(rest),
        spec_decode_end(seq![(256 - spec_magnitude(b)) as u8] + rest) == spec_decode_end(rest),
{
    let s = seq![(256 - spec_magnitude(b)) as u8] + rest;
    lemma_button_magnitude_round_trip(b, spec_magnitude(b));
    assert(1 <= spec_magnitude(b) <= 10);
    assert(s[0] == (256 - spec_magnitude(b)) as u8);
    assert(opcode_signed(s[0]) == -spec_magnitude(b));
    assert(s.skip(1) =~= rest);
    assert(spec_event_actions(Event::Button { id: b, pressed: false }) =~= seq![
        DeviceAction::Release(b),
        DeviceAction::Commit,
    ]);
}

/// An opcode outside the protocol ends the session at once: whatever bytes
/// follow a stream whose decoding ends in `BadOpcode`, none of them is read
/// and no further action is performed.
pub proof fn lemma_bad_opcode_reads_nothing_further(s: Seq<u8>, more: Seq<u8>)
    requires
        spec_decode_end(s) == StreamEnd::BadOpcode,
    ensures
        spec_decode_actions(s + more) == spec_decode_actions(s),
        spec_decode_end(s + more) == StreamEnd::BadOpcode,
        spec_decode_consumed(s + more) == spec_decode_consumed(s),
    decreases s.len(),
{
    let t = s + more;
    assert(s.len() > 0);
    assert(t[0] == s[0]);
    match spec_classify(s[0]) {
        OpcodeClass::PointerTag => {
            assert(s.len() >= 5);
            assert(t[1] == s[1] && t[2] == s[2] && t[3] == s[3] && t[4] == s[4]);
            assert(t.skip(5) =~= s.skip(5) + more);
            lemma_bad_opcode_reads_nothing_further(s.skip(5), more);
        },
        OpcodeClass::ButtonOp { id, pressed } => {
            assert(t.skip(1) =~= s.skip(1) + more);
            lemma_bad_opcode_reads_nothing_further(s.skip(1), more);
        },
        OpcodeClass::Invalid => {
            assert(t.len() >= 1);
        },
    }
}

/// A pointer frame cut short by the end of the stream performs no device
/// action at all: no partial axis update precedes the corruption report.
pub proof fn lemma_truncated_pointer_frame(s: Seq<u8>)
    requires
        s.len() >= 1,
        s[0] == 0,
        s.len() < 5,
    ensures
        spec_decode_actions(s) == Seq::<DeviceAction>::empty(),
        spec_decode_end(s) == StreamEnd::Truncated,
{
}

} // verus!
