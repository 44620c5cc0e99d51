//! Binary encoding of the radio messages between the ground station and the vehicle.
//!
//! A message is its variant index as a varint followed by its fields in order:
//! `u8` as one byte, `u32` as a varint, signed integers as the varint of their
//! zig-zag mapping, byte strings as a varint length and the bytes, a sensor reading
//! as the eight little-endian bytes of its bit pattern.
use vstd::prelude::*;

use crate::types::{
    ActionModel, B2GModel, BlimpAction, BlimpEvent, Controls, EventModel, MessageB2G, MessageG2B,
    SensorType,
};
use crate::wire::{
    lemma_varint32_round_trip, lemma_zigzag_i32, le_u64, push_byte_seq, push_i16, push_i32,
    push_le_u64, push_u32, take_i32, take_u32, unzigzag, varint, varint32_take, zigzag,
};

verus! {

/// Why bytes could not be read as a [`MessageG2B`].
#[derive(Clone, Copy, Debug, PartialEq, Eq, Structural)]
pub enum DecodeError {
    /// A field is cut short or holds a malformed varint.
    BadEncoding,
    /// The variant index names no message.
    UnknownVariant(u32),
}

/// The bytes of the pilot inputs: throttle, elevation, yaw.
pub open spec fn controls_wire(c: Controls) -> Seq<u8> {
    varint(zigzag(c.throttle as int)) + varint(zigzag(c.elevation as int)) + varint(
        zigzag(c.yaw as int),
    )
}

/// The variant index of a sensor type.
pub open spec fn sensor_index(t: SensorType) -> nat {
    match t {
        SensorType::Barometer => 0,
        SensorType::GPSLatitude => 1,
        SensorType::GPSLongitude => 2,
        SensorType::GPSAltitude => 3,
    }
}

/// The bytes of an action.
pub open spec fn action_wire(a: ActionModel) -> Seq<u8> {
    match a {
        ActionModel::SetServo { servo, location } => varint(0) + seq![servo] + varint(
            zigzag(location as int),
        ),
        ActionModel::SetMotor { motor, speed } => varint(1) + seq![motor] + varint(
            zigzag(speed as int),
        ),
        ActionModel::SendMsg(b) => varint(2) + varint(b.len()) + b,
    }
}

/// The bytes of an event.
pub open spec fn event_wire(e: EventModel) -> Seq<u8> {
    match e {
        EventModel::Control(c) => varint(0) + controls_wire(c),
        EventModel::GetMsg(b) => varint(1) + varint(b.len()) + b,
        EventModel::SensorDataF64(t, x) => varint(2) + varint(sensor_index(t)) + le_u64(x),
    }
}

/// The bytes of a message to the ground station.
pub open spec fn b2g_wire(m: B2GModel) -> Seq<u8> {
    match m {
        B2GModel::Ping(id) => varint(0) + varint(id as nat),
        B2GModel::Pong(id) => varint(1) + varint(id as nat),
        B2GModel::ForwardAction(a) => varint(2) + action_wire(a),
        B2GModel::ForwardEvent(e) => varint(3) + event_wire(e),
    }
}

/// The bytes of a message to the vehicle.
pub open spec fn g2b_wire(m: MessageG2B) -> Seq<u8> {
    match m {
        MessageG2B::Ping(id) => varint(0) + varint(id as nat),
        MessageG2B::Pong(id) => varint(1) + varint(id as nat),
        MessageG2B::Control(c) => varint(2) + controls_wire(c),
    }
}

/// Reads a zig-zag varint at the start of `b`: the signed value and the bytes it took.
pub open spec fn i32_take(b: Seq<u8>) -> Option<(int, nat)> {
    match varint32_take(b) {
        Some((x, n)) => Some((unzigzag(x), n)),
        None => None,
    }
}

/// Reads pilot inputs at the start of `b`.
pub open spec fn controls_take(b: Seq<u8>) -> Option<Controls> {
    match i32_take(b) {
        Some((t, n1)) => match i32_take(b.skip(n1 as int)) {
            Some((e, n2)) => match i32_take(b.skip(n1 as int).skip(n2 as int)) {
                Some((y, _)) => Some(Controls { throttle: t as i32, elevation: e as i32, yaw: y as i32 }),
                None => None,
            },
            None => None,
        },
        None => None,
    }
}

/// Reads a message to the vehicle at the start of `b`; bytes after it are ignored.
pub open spec fn g2b_decode(b: Seq<u8>) -> Result<MessageG2B, DecodeError> {
    match varint32_take(b) {
        None => Err(DecodeError::BadEncoding),
        Some((tag, n)) => {
            let rest = b.skip(n as int);
            if tag == 0 || tag == 1 {
                match varint32_take(rest) {
                    Some((id, _)) => if tag == 0 {
                        Ok(MessageG2B::Ping(id as u32))
                    } else {
                        Ok(MessageG2B::Pong(id as u32))
                    },
                    None => Err(DecodeError::BadEncoding),
                }
            } else if tag == 2 {
                match controls_take(rest) {
                    Some(c) => Ok(MessageG2B::Control(c)),
                    None => Err(DecodeError::BadEncoding),
                }
            } else {
                Err(DecodeError::UnknownVariant(tag as u32))
            }
        },
    }
}

fn push_controls(out: &mut Vec<u8>, c: &Controls)
    ensures
        final(out)@ == old(out)@ + controls_wire(*c),
{
    push_i32(out, c.throttle);
    push_i32(out, c.elevation);
    push_i32(out, c.yaw);
    assert(final(out)@ =~= old(out)@ + controls_wire(*c));
}

fn push_action(out: &mut Vec<u8>, a: &BlimpAction)
    ensures
        final(out)@ == old(out)@ + action_wire(a@),
{
    match a {
        BlimpAction::SetServo { servo, location } => {
            push_u32(out, 0);
            out.push(*servo);
            push_i16(out, *location);
        },
        BlimpAction::SetMotor { motor, speed } => {
            push_u32(out, 1);
            out.push(*motor);
            push_i32(out, *speed);
        },
        BlimpAction::SendMsg(b) => {
            push_u32(out, 2);
            push_byte_seq(out, b);
        },
    }
    assert(final(out)@ =~= old(out)@ + action_wire(a@));
}

fn sensor_tag(t: SensorType) -> (r: u32)
    ensures
        r as nat == sensor_index(t),
{
    match t {
        SensorType::Barometer => 0,
        SensorType::GPSLatitude => 1,
        SensorType::GPSLongitude => 2,
        SensorType::GPSAltitude => 3,
    }
}

fn push_event(out: &mut Vec<u8>, e: &BlimpEvent)
    ensures
        final(out)@ == old(out)@ + event_wire(e@),
{
    match e {
        BlimpEvent::Control(c) => {
            push_u32(out, 0);
            push_controls(out, c);
        },
        BlimpEvent::GetMsg(b) => {
            push_u32(out, 1);
            push_byte_seq(out, b);
        },
        BlimpEvent::SensorDataF64(t, x) => {
            push_u32(out, 2);
            push_u32(out, sensor_tag(*t));
            push_le_u64(out, *x);
        },
    }
    assert(final(out)@ =~= old(out)@ + event_wire(e@));
}

/// Encodes a message to the ground station.
pub fn encode_b2g(msg: &MessageB2G) -> (r: Vec<u8>)
    ensures
        r@ == b2g_wire(msg@),
{
    let mut out: Vec<u8> = Vec::new();
    match msg {
        MessageB2G::Ping(id) => {
            push_u32(&mut out, 0);
            push_u32(&mut out, *id);
        },
        MessageB2G::Pong(id) => {
            push_u32(&mut out, 1);
            push_u32(&mut out, *id);
        },
        MessageB2G::ForwardAction(a) => {
            push_u32(&mut out, 2);
            push_action(&mut out, a);
        },
        MessageB2G::ForwardEvent(e) => {
            push_u32(&mut out, 3);
            push_event(&mut out, e);
        },
    }
    assert(out@ =~= b2g_wire(msg@));
    out
}

/// Encodes a message to the vehicle.
pub fn encode_g2b(msg: &MessageG2B) -> (r: Vec<u8>)
    ensures
        r@ == g2b_wire(*msg),
{
    let mut out: Vec<u8> = Vec::new();
    match msg {
        MessageG2B::Ping(id) => {
            push_u32(&mut out, 0);
            push_u32(&mut out, *id);
        },
        MessageG2B::Pong(id) => {
            push_u32(&mut out, 1);
            push_u32(&mut out, *id);
        },
        MessageG2B::Control(c) => {
            push_u32(&mut out, 2);
            push_controls(&mut out, c);
        },
    }
    assert(out@ =~= g2b_wire(*msg));
    out
}

fn read_controls(b: &[u8]) -> (r: Option<Controls>)
    ensures
        r == controls_take(b@),
{
    let (throttle, b1) = match take_i32(b) {
        Ok(p) => p,
        Err(_) => return None,
    };
    let (elevation, b2) = match take_i32(b1) {
        Ok(p) => p,
        Err(_) => return None,
    };
    let (yaw, _) = match take_i32(b2) {
        Ok(p) => p,
        Err(_) => return None,
    };
    Some(Controls { throttle, elevation, yaw })
}

/// Decodes a message to the vehicle from the start of `b`; bytes after it are ignored.
pub fn decode_g2b(b: &[u8]) -> (r: Result<MessageG2B, DecodeError>)
    ensures
        r == g2b_decode(b@),
{
    let (tag, rest) = match take_u32(b) {
        Ok(p) => p,
        Err(_) => return Err(DecodeError::BadEncoding),
    };
    if tag == 0 || tag == 1 {
        match take_u32(rest) {
            Ok((id, _)) => if tag == 0 {
                Ok(MessageG2B::Ping(id))
            } else {
                Ok(MessageG2B::Pong(id))
            },
            Err(_) => Err(DecodeError::BadEncoding),
        }
    } else if tag == 2 {
        match read_controls(rest) {
            Some(c) => Ok(MessageG2B::Control(c)),
            None => Err(DecodeError::BadEncoding),
        }
    } else {
        Err(DecodeError::UnknownVariant(tag))
    }
}

proof fn lemma_i32_round_trip(v: i32, rest: Seq<u8>)
    ensures
        i32_take(varint(zigzag(v as int)) + rest) == Some(
            (v as int, varint(zigzag(v as int)).len()),
        ),
{
    lemma_zigzag_i32(v);
    lemma_varint32_round_trip(zigzag(v as int), rest);
}

proof fn lemma_controls_round_trip(c: Controls, rest: Seq<u8>)
    ensures
        controls_take(controls_wire(c) + rest) == Some(c),
{
    let t = varint(zigzag(c.throttle as int));
    let e = varint(zigzag(c.elevation as int));
    let y = varint(zigzag(c.yaw as int));
    let b = controls_wire(c) + rest;
    assert(b == t + (e + (y + rest)));
    lemma_i32_round_trip(c.throttle, e + (y + rest));
    assert(b.skip(t.len() as int) == e + (y + rest));
    lemma_i32_round_trip(c.elevation, y + rest);
    assert(b.skip(t.len() as int).skip(e.len() as int) == y + rest);
    lemma_i32_round_trip(c.yaw, rest);
}

/// Decoding the encoding of a message to the vehicle gives the message back, whatever
/// bytes follow it.
pub proof fn lemma_g2b_round_trip(m: MessageG2B, rest: Seq<u8>)
    ensures
        g2b_decode(g2b_wire(m) + rest) == Ok::<MessageG2B, DecodeError>(m),
{
    let b = g2b_wire(m) + rest;
    match m {
        MessageG2B::Ping(id) => {
            assert(b == varint(0) + (varint(id as nat) + rest));
            lemma_varint32_round_trip(0, varint(id as nat) + rest);
            assert(b.skip(1) == varint(id as nat) + rest);
            lemma_varint32_round_trip(id as nat, rest);
        },
        MessageG2B::Pong(id) => {
            assert(b == varint(1) + (varint(id as nat) + rest));
            lemma_varint32_round_trip(1, varint(id as nat) + rest);
            assert(b.skip(1) == varint(id as nat) + rest);
            lemma_varint32_round_trip(id as nat, rest);
        },
        MessageG2B::Control(c) => {
            assert(b == varint(2) + (controls_wire(c) + rest));
            lemma_varint32_round_trip(2, controls_wire(c) + rest);
            assert(b.skip(1) == controls_wire(c) + rest);
            lemma_controls_round_trip(c, rest);
        },
    }
}

} // verus!
