use vstd::prelude::*;

verus! {

/// Pilot inputs: one signed value per axis, stored as received.
#[derive(Clone, Copy, Debug, PartialEq, Eq, Structural)]
pub struct Controls {
    pub throttle: i32,
    pub elevation: i32,
    pub yaw: i32,
}

/// What a scalar sensor reading measures.
#[derive(Clone, Copy, Debug, PartialEq, Eq, Structural)]
pub enum SensorType {
    Barometer,
    GPSLatitude,
    GPSLongitude,
    GPSAltitude,
}

/// The control law that turns the pilot inputs into actuator commands.
#[derive(Clone, Copy, Debug, PartialEq, Eq, Structural)]
pub enum FlightMode {
    /// Throttle drives the motors, elevation and yaw drive motors and servos directly.
    Manual,
    /// Hold altitude and attitude; this law emits no commands yet.
    StabilizeAttiAlti,
}

/// An output of the controller: an actuator command or an outbound radio datagram.
#[derive(Clone, Debug)]
pub enum BlimpAction {
    SetServo { servo: u8, location: i16 },
    SetMotor { motor: u8, speed: i32 },
    SendMsg(Vec<u8>),
}

/// An input of the controller. A sensor reading carries the IEEE-754 binary64
/// bit pattern of the measured value.
#[derive(Clone, Debug)]
pub enum BlimpEvent {
    Control(Controls),
    GetMsg(Vec<u8>),
    SensorDataF64(SensorType, u64),
}

/// A datagram sent by the ground station to the vehicle.
#[derive(Clone, Copy, Debug, PartialEq, Eq, Structural)]
pub enum MessageG2B {
    Ping(u32),
    Pong(u32),
    Control(Controls),
}

/// A datagram sent by the vehicle to the ground station.
#[derive(Clone, Debug)]
pub enum MessageB2G {
    Ping(u32),
    Pong(u32),
    ForwardAction(BlimpAction),
    ForwardEvent(BlimpEvent),
}

/// Mathematical value of a [`BlimpAction`].
pub enum ActionModel {
    SetServo { servo: u8, location: i16 },
    SetMotor { motor: u8, speed: i32 },
    SendMsg(Seq<u8>),
}

/// Mathematical value of a [`BlimpEvent`].
pub enum EventModel {
    Control(Controls),
    GetMsg(Seq<u8>),
    SensorDataF64(SensorType, u64),
}

/// Mathematical value of a [`MessageB2G`].
pub enum B2GModel {
    Ping(u32),
    Pong(u32),
    ForwardAction(ActionModel),
    ForwardEvent(EventModel),
}

impl View for BlimpAction {
    type V = ActionModel;

    open spec fn view(&self) -> ActionModel {
        match self {
            BlimpAction::SetServo { servo, location } => ActionModel::SetServo {
                servo: *servo,
                location: *location,
            },
            BlimpAction::SetMotor { motor, speed } => ActionModel::SetMotor {
                motor: *motor,
                speed: *speed,
            },
            BlimpAction::SendMsg(b) => ActionModel::SendMsg(b@),
        }
    }
}

impl View for BlimpEvent {
    type V = EventModel;

    open spec fn view(&self) -> EventModel {
        match self {
            BlimpEvent::Control(c) => EventModel::Control(*c),
            BlimpEvent::GetMsg(b) => EventModel::GetMsg(b@),
            BlimpEvent::SensorDataF64(t, v) => EventModel::SensorDataF64(*t, *v),
        }
    }
}

impl View for MessageB2G {
    type V = B2GModel;

    open spec fn view(&self) -> B2GModel {
        match self {
            MessageB2G::Ping(id) => B2GModel::Ping(*id),
            MessageB2G::Pong(id) => B2GModel::Pong(*id),
            MessageB2G::ForwardAction(a) => B2GModel::ForwardAction(a@),
            MessageB2G::ForwardEvent(e) => B2GModel::ForwardEvent(e@),
        }
    }
}

/// The values of a sequence of actions.
pub open spec fn actions_view(v: Seq<BlimpAction>) -> Seq<ActionModel> {
    v.map_values(|a: BlimpAction| a@)
}

/// Whether an action drives hardware (a motor or a servo).
pub open spec fn is_actuator(a: ActionModel) -> bool {
    !(a is SendMsg)
}

} // verus!
