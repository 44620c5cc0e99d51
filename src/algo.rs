//! The controller: its state, the event processor and the actuator mapper.
use vstd::prelude::*;

use crate::codec::{
    b2g_wire, decode_g2b, encode_b2g, g2b_decode, g2b_wire, lemma_g2b_round_trip, DecodeError,
};
use crate::types::{
    actions_view, is_actuator, ActionModel, B2GModel, BlimpAction, BlimpEvent, Controls,
    EventModel, FlightMode, MessageB2G, MessageG2B, SensorType,
};

verus! {

/// A controller that consumes events one at a time and answers each with the
/// actions it emits, in order.
pub trait BlimpAlgorithm<EventType, ActionType> {
    /// Processes one event to completion. An inbound datagram that cannot be
    /// decoded is dropped and reported as the error.
    fn handle_event(&mut self, ev: &EventType) -> Result<Vec<ActionType>, DecodeError>;
}

/// What the controller knows between two events.
pub struct AlgoState {
    pub mode: FlightMode,
    pub controls: Controls,
    /// Bit pattern of the last accepted barometer reading, from which the altitude
    /// estimate is derived.
    pub pressure: Option<u64>,
    /// Bit patterns of latitude and longitude.
    pub gps: Option<(u64, u64)>,
}

/// The onboard controller.
pub struct BlimpMainAlgo {
    curr_flight_mode: FlightMode,
    controls: Controls,
    pressure: Option<u64>,
    gps_location: Option<(u64, u64)>,
}

impl View for BlimpMainAlgo {
    type V = AlgoState;

    closed spec fn view(&self) -> AlgoState {
        AlgoState {
            mode: self.curr_flight_mode,
            controls: self.controls,
            pressure: self.pressure,
            gps: self.gps_location,
        }
    }
}

/// Bit pattern of a binary64 reading that is a positive finite number (a positive
/// subnormal or normal value). Only such pressures give an altitude.
pub open spec fn is_valid_pressure(bits: u64) -> bool {
    0 < bits < 0x7FF0_0000_0000_0000
}

/// The stored latitude; the bits of `0.0` when no GPS coordinate was set.
pub open spec fn lat_or_zero(g: Option<(u64, u64)>) -> u64 {
    match g {
        Some((lat, _)) => lat,
        None => 0,
    }
}

/// The stored longitude; the bits of `0.0` when no GPS coordinate was set.
pub open spec fn lon_or_zero(g: Option<(u64, u64)>) -> u64 {
    match g {
        Some((_, lon)) => lon,
        None => 0,
    }
}

/// The state after an event.
pub open spec fn after_event(s: AlgoState, e: EventModel) -> AlgoState {
    match e {
        EventModel::Control(c) => AlgoState { controls: c, ..s },
        EventModel::GetMsg(b) => match g2b_decode(b) {
            Ok(MessageG2B::Control(c)) => AlgoState { controls: c, ..s },
            _ => s,
        },
        EventModel::SensorDataF64(t, x) => match t {
            SensorType::Barometer => if is_valid_pressure(x) {
                AlgoState { pressure: Some(x), ..s }
            } else {
                s
            },
            SensorType::GPSLatitude => AlgoState {
                gps: Some((x, lon_or_zero(s.gps))),
                ..s
            },
            SensorType::GPSLongitude => AlgoState {
                gps: Some((lat_or_zero(s.gps), x)),
                ..s
            },
            SensorType::GPSAltitude => s,
        },
    }
}

/// The actions emitted for an event.
pub open spec fn event_output(s: AlgoState, e: EventModel) -> Seq<ActionModel> {
    match e {
        EventModel::Control(_) => seq![],
        EventModel::GetMsg(b) => match g2b_decode(b) {
            Ok(MessageG2B::Ping(id)) => seq![ActionModel::SendMsg(b2g_wire(B2GModel::Pong(id)))],
            _ => seq![],
        },
        EventModel::SensorDataF64(_, _) => seq![
            ActionModel::SendMsg(b2g_wire(B2GModel::ForwardEvent(e))),
        ],
    }
}

/// Nesting depth of event handling: a datagram may carry pilot inputs, which are
/// handled as an event of their own.
pub open spec fn event_depth(e: EventModel) -> nat {
    if e is GetMsg {
        1
    } else {
        0
    }
}

/// Speed of motor `i` in manual mode: throttle, plus yaw on even arms and minus yaw
/// on odd arms, plus elevation, in wrapping `i32` arithmetic.
pub open spec fn motor_speed(c: Controls, i: int) -> i32 {
    let sum = c.throttle + (if i % 2 == 0 {
        c.yaw as int
    } else {
        -c.yaw
    }) + c.elevation;
    if sum > i32::MAX {
        (sum - 0x1_0000_0000) as i32
    } else if sum < i32::MIN {
        (sum + 0x1_0000_0000) as i32
    } else {
        sum as i32
    }
}

/// An action as emitted: an actuator command is followed by its telemetry copy.
pub open spec fn performed(a: ActionModel) -> Seq<ActionModel> {
    if is_actuator(a) {
        seq![a, ActionModel::SendMsg(b2g_wire(B2GModel::ForwardAction(a)))]
    } else {
        seq![a]
    }
}

/// Manual-mode output for arm `i`: its motor, its vertical servo `2i` driven by the
/// elevation and its lateral servo `2i + 1` driven by the yaw (servo positions are
/// the low 16 bits of the input).
pub open spec fn arm_output(c: Controls, i: nat) -> Seq<ActionModel> {
    performed(ActionModel::SetMotor { motor: i as u8, speed: motor_speed(c, i as int) })
        + performed(ActionModel::SetServo { servo: (2 * i) as u8, location: c.elevation as i16 })
        + performed(ActionModel::SetServo { servo: (2 * i + 1) as u8, location: c.yaw as i16 })
}

/// Manual-mode output for arms `0..n`, in ascending order.
pub open spec fn manual_output(c: Controls, n: nat) -> Seq<ActionModel>
    decreases n,
{
    if n == 0 {
        seq![]
    } else {
        manual_output(c, (n - 1) as nat) + arm_output(c, (n - 1) as nat)
    }
}

/// The actions of one periodic step.
pub open spec fn step_output(s: AlgoState) -> Seq<ActionModel> {
    match s.mode {
        FlightMode::Manual => manual_output(s.controls, 4),
        FlightMode::StabilizeAttiAlti => seq![],
    }
}

/// Emits `action`, followed by its telemetry copy when it drives hardware.
fn perform_action(out: &mut Vec<BlimpAction>, action: BlimpAction)
    ensures
        actions_view(final(out)@) == actions_view(old(out)@) + performed(action@),
{
    let forward = match &action {
        BlimpAction::SetServo { servo, location } => Some(
            MessageB2G::ForwardAction(BlimpAction::SetServo { servo: *servo, location: *location }),
        ),
        BlimpAction::SetMotor { motor, speed } => Some(
            MessageB2G::ForwardAction(BlimpAction::SetMotor { motor: *motor, speed: *speed }),
        ),
        BlimpAction::SendMsg(_) => None,
    };
    let ghost a = action@;
    out.push(action);
    if let Some(msg) = forward {
        out.push(BlimpAction::SendMsg(encode_b2g(&msg)));
    }
    assert(actions_view(final(out)@) =~= actions_view(old(out)@) + performed(a));
}

impl BlimpMainAlgo {
    /// A controller in manual mode with zero pilot inputs and no sensor data.
    pub fn new() -> (r: Self)
        ensures
            r@ == (AlgoState {
                mode: FlightMode::Manual,
                controls: Controls { throttle: 0, elevation: 0, yaw: 0 },
                pressure: None,
                gps: None,
            }),
    {
        BlimpMainAlgo {
            curr_flight_mode: FlightMode::Manual,
            controls: Controls { throttle: 0, elevation: 0, yaw: 0 },
            pressure: None,
            gps_location: None,
        }
    }

    /// Runs the active control law once and returns the actions it emits.
    pub fn step(&mut self) -> (out: Vec<BlimpAction>)
        ensures
            final(self)@ == old(self)@,
            actions_view(out@) == step_output(old(self)@),
    {
        let mut out: Vec<BlimpAction> = Vec::new();
        match self.curr_flight_mode {
            FlightMode::Manual => {
                let c = self.controls;
                let mut i: u8 = 0;
                while i < 4
                    invariant
                        i <= 4,
                        c == self.controls,
                        actions_view(out@) == manual_output(c, i as nat),
                    decreases 4 - i,
                {
                    let speed = if i % 2 == 0 {
                        c.throttle.wrapping_add(c.yaw)
                    } else {
                        c.throttle.wrapping_sub(c.yaw)
                    }.wrapping_add(c.elevation);
                    assert(speed == motor_speed(c, i as int));
                    let ghost before = actions_view(out@);
                    perform_action(&mut out, BlimpAction::SetMotor { motor: i, speed });
                    perform_action(
                        &mut out,
                        BlimpAction::SetServo { servo: 2 * i, location: c.elevation as i16 },
                    );
                    perform_action(
                        &mut out,
                        BlimpAction::SetServo { servo: 2 * i + 1, location: c.yaw as i16 },
                    );
                    assert(actions_view(out@) =~= before + arm_output(c, i as nat));
                    i = i + 1;
                }
            },
            FlightMode::StabilizeAttiAlti => {},
        }
        assert(actions_view(out@) =~= step_output(self@));
        out
    }

    /// Selects the control law that later steps run.
    pub fn set_flight_mode(&mut self, mode: FlightMode)
        ensures
            final(self)@ == (AlgoState { mode, ..old(self)@ }),
    {
        self.curr_flight_mode = mode;
    }

    /// The active control law.
    pub fn flight_mode(&self) -> (r: FlightMode)
        ensures
            r == self@.mode,
    {
        self.curr_flight_mode
    }

    /// The stored pilot inputs.
    pub fn controls(&self) -> (r: Controls)
        ensures
            r == self@.controls,
    {
        self.controls
    }

    /// Bit pattern of the last accepted barometer reading, if any.
    pub fn pressure(&self) -> (r: Option<u64>)
        ensures
            r == self@.pressure,
    {
        self.pressure
    }

    /// Bit patterns of the stored latitude and longitude, if either was ever set.
    pub fn gps_location(&self) -> (r: Option<(u64, u64)>)
        ensures
            r == self@.gps,
    {
        self.gps_location
    }

    fn dispatch(&mut self, ev: &BlimpEvent) -> (r: Result<Vec<BlimpAction>, DecodeError>)
        ensures
            match r {
                Ok(out) => actions_view(out@) == event_output(old(self)@, ev@) && final(self)@
                    == after_event(old(self)@, ev@),
                Err(e) => ev@ matches EventModel::GetMsg(b) && g2b_decode(b) == Err::<
                    MessageG2B,
                    DecodeError,
                >(e) && final(self)@ == old(self)@,
            },
            r is Err <==> (ev@ matches EventModel::GetMsg(b) && g2b_decode(b) is Err),
        decreases event_depth(ev@),
    {
        let mut out: Vec<BlimpAction> = Vec::new();
        match ev {
            BlimpEvent::Control(c) => {
                self.controls = *c;
            },
            BlimpEvent::GetMsg(msg) => {
                match decode_g2b(msg.as_slice()) {
                    Err(e) => {
                        return Err(e);
                    },
                    Ok(MessageG2B::Ping(id)) => {
                        out.push(BlimpAction::SendMsg(encode_b2g(&MessageB2G::Pong(id))));
                    },
                    Ok(MessageG2B::Pong(_)) => {},
                    Ok(MessageG2B::Control(c)) => {
                        return self.dispatch(&BlimpEvent::Control(c));
                    },
                }
            },
            BlimpEvent::SensorDataF64(t, x) => {
                match t {
                    SensorType::Barometer => {
                        if 0 < *x && *x < 0x7FF0_0000_0000_0000 {
                            self.pressure = Some(*x);
                        }
                    },
                    SensorType::GPSLatitude => {
                        let lon = match self.gps_location {
                            Some((_, lon)) => lon,
                            None => 0,
                        };
                        self.gps_location = Some((*x, lon));
                    },
                    SensorType::GPSLongitude => {
                        let lat = match self.gps_location {
                            Some((lat, _)) => lat,
                            None => 0,
                        };
                        self.gps_location = Some((lat, *x));
                    },
                    SensorType::GPSAltitude => {},
                }
                let fwd = MessageB2G::ForwardEvent(BlimpEvent::SensorDataF64(*t, *x));
                out.push(BlimpAction::SendMsg(encode_b2g(&fwd)));
            },
        }
        assert(actions_view(out@) =~= event_output(old(self)@, ev@));
        Ok(out)
    }
}

impl BlimpAlgorithm<BlimpEvent, BlimpAction> for BlimpMainAlgo {
    /// Pilot inputs replace the stored ones; a valid barometer reading replaces the
    /// stored one (any other is ignored); a GPS coordinate replaces its axis, the
    /// other axis reading 0 until set; every sensor reading is echoed to the ground.
    /// A datagram is decoded: a ping is answered with a pong carrying the same id,
    /// pilot inputs are handled as a `Control` event, a pong is ignored.
    fn handle_event(&mut self, ev: &BlimpEvent) -> (r: Result<Vec<BlimpAction>, DecodeError>)
        ensures
            match r {
                Ok(out) => actions_view(out@) == event_output(old(self)@, ev@) && final(self)@
                    == after_event(old(self)@, ev@),
                Err(e) => ev@ matches EventModel::GetMsg(b) && g2b_decode(b) == Err::<
                    MessageG2B,
                    DecodeError,
                >(e) && final(self)@ == old(self)@,
            },
            r is Err <==> (ev@ matches EventModel::GetMsg(b) && g2b_decode(b) is Err),
    {
        self.dispatch(ev)
    }
}

/// Whether the action at `2k` of `o` drives hardware and the action right after it
/// forwards that command to the ground station.
pub open spec fn forwarded_pair(o: Seq<ActionModel>, k: int) -> bool {
    is_actuator(o[2 * k]) && o[2 * k + 1] == ActionModel::SendMsg(
        b2g_wire(B2GModel::ForwardAction(o[2 * k])),
    ) && !is_actuator(o[2 * k + 1])
}

proof fn lemma_manual_output_pairs(c: Controls, n: nat)
    ensures
        manual_output(c, n).len() == 6 * n,
        forall|k: int| 0 <= k < 3 * n ==> #[trigger] forwarded_pair(manual_output(c, n), k),
    decreases n,
{
    if n > 0 {
        let m = (n - 1) as nat;
        lemma_manual_output_pairs(c, m);
        let prev = manual_output(c, m);
        let arm = arm_output(c, m);
        let o = manual_output(c, n);
        assert(o == prev + arm);
        let a0 = ActionModel::SetMotor { motor: m as u8, speed: motor_speed(c, m as int) };
        let a1 = ActionModel::SetServo { servo: (2 * m) as u8, location: c.elevation as i16 };
        let a2 = ActionModel::SetServo { servo: (2 * m + 1) as u8, location: c.yaw as i16 };
        let fwd = |a: ActionModel| ActionModel::SendMsg(b2g_wire(B2GModel::ForwardAction(a)));
        assert(arm =~= seq![a0, fwd(a0), a1, fwd(a1), a2, fwd(a2)]);
        assert forall|k: int| 0 <= k < 3 * n implies #[trigger] forwarded_pair(o, k) by {
            if k < 3 * m {
                assert(forwarded_pair(prev, k));
                assert(o[2 * k] == prev[2 * k]);
                assert(o[2 * k + 1] == prev[2 * k + 1]);
            } else {
                assert(o[2 * k] == arm[2 * (k - 3 * m)]);
                assert(o[2 * k + 1] == arm[2 * (k - 3 * m) + 1]);
            }
        }
    }
}

/// In manual mode one step emits twelve actuator commands, each followed by exactly
/// one message that forwards it to the ground station: 24 actions in all.
pub proof fn lemma_manual_step_forwards_each_command(s: AlgoState)
    requires
        s.mode == FlightMode::Manual,
    ensures
        step_output(s).len() == 24,
        forall|k: int| 0 <= k < 12 ==> #[trigger] forwarded_pair(step_output(s), k),
{
    lemma_manual_output_pairs(s.controls, 4);
}

/// A latitude reading and then a longitude reading leave the location at exactly
/// those two values; before any GPS reading, one axis alone reads with the other at
/// the bits of `0.0`.
pub proof fn lemma_gps_partial_updates(s: AlgoState, lat: u64, lon: u64)
    ensures
        after_event(
            after_event(s, EventModel::SensorDataF64(SensorType::GPSLatitude, lat)),
            EventModel::SensorDataF64(SensorType::GPSLongitude, lon),
        ).gps == Some((lat, lon)),
        s.gps is None ==> after_event(
            s,
            EventModel::SensorDataF64(SensorType::GPSLatitude, lat),
        ).gps == Some((lat, 0u64)),
        s.gps is None ==> after_event(
            s,
            EventModel::SensorDataF64(SensorType::GPSLongitude, lon),
        ).gps == Some((0u64, lon)),
{
}

/// A datagram that holds an encoded ping, whatever follows it, changes no state and
/// is answered with exactly one message: the encoded pong with the same id.
pub proof fn lemma_ping_answered(s: AlgoState, id: u32, rest: Seq<u8>)
    ensures
        after_event(s, EventModel::GetMsg(g2b_wire(MessageG2B::Ping(id)) + rest)) == s,
        event_output(s, EventModel::GetMsg(g2b_wire(MessageG2B::Ping(id)) + rest)) == seq![
            ActionModel::SendMsg(b2g_wire(B2GModel::Pong(id))),
        ],
{
    lemma_g2b_round_trip(MessageG2B::Ping(id), rest);
}

/// A datagram that holds encoded pilot inputs acts exactly as a `Control` event
/// carrying them: the stored inputs become those, and nothing more is emitted.
pub proof fn lemma_forwarded_control(s: AlgoState, c: Controls, rest: Seq<u8>)
    ensures
        after_event(s, EventModel::GetMsg(g2b_wire(MessageG2B::Control(c)) + rest))
            == after_event(s, EventModel::Control(c)),
        event_output(s, EventModel::GetMsg(g2b_wire(MessageG2B::Control(c)) + rest))
            == event_output(s, EventModel::Control(c)),
        after_event(s, EventModel::Control(c)).controls == c,
{
    lemma_g2b_round_trip(MessageG2B::Control(c), rest);
}

/// Every sensor reading, of any type, emits exactly one message: the event forwarded
/// to the ground station.
pub proof fn lemma_sensor_reading_forwarded(s: AlgoState, t: SensorType, x: u64)
    ensures
        event_output(s, EventModel::SensorDataF64(t, x)) == seq![
            ActionModel::SendMsg(
                b2g_wire(B2GModel::ForwardEvent(EventModel::SensorDataF64(t, x))),
            ),
        ],
{
}

/// A datagram that cannot be decoded changes no state and emits nothing.
pub proof fn lemma_undecodable_datagram_inert(s: AlgoState, b: Seq<u8>)
    requires
        g2b_decode(b) is Err,
    ensures
        after_event(s, EventModel::GetMsg(b)) == s,
        event_output(s, EventModel::GetMsg(b)) == Seq::<ActionModel>::empty(),
{
}

} // verus!
