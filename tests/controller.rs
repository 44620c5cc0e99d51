use blimp_obsw::{
    decode_g2b, encode_b2g, encode_g2b, BlimpAction, BlimpAlgorithm, BlimpEvent, BlimpMainAlgo,
    Controls, DecodeError, FlightMode, MessageB2G, MessageG2B, SensorType,
};

fn ctrl(throttle: i32, elevation: i32, yaw: i32) -> Controls {
    Controls { throttle, elevation, yaw }
}

fn sent_bytes(a: &BlimpAction) -> Vec<u8> {
    match a {
        BlimpAction::SendMsg(b) => b.clone(),
        other => panic!("expected a datagram, got {:?}", other),
    }
}

fn motor(a: &BlimpAction) -> (u8, i32) {
    match a {
        BlimpAction::SetMotor { motor, speed } => (*motor, *speed),
        other => panic!("expected a motor command, got {:?}", other),
    }
}

fn servo(a: &BlimpAction) -> (u8, i16) {
    match a {
        BlimpAction::SetServo { servo, location } => (*servo, *location),
        other => panic!("expected a servo command, got {:?}", other),
    }
}

fn sensor(t: SensorType, v: f64) -> BlimpEvent {
    BlimpEvent::SensorDataF64(t, v.to_bits())
}

#[test]
fn new_controller_starts_idle() {
    let a = BlimpMainAlgo::new();
    assert_eq!(a.flight_mode(), FlightMode::Manual);
    assert_eq!(a.controls(), ctrl(0, 0, 0));
    assert_eq!(a.pressure(), None);
    assert_eq!(a.gps_location(), None);
}

#[test]
fn manual_mapping_speeds_and_servos() {
    let mut a = BlimpMainAlgo::new();
    a.handle_event(&BlimpEvent::Control(ctrl(50, 10, 5))).unwrap();
    let out = a.step();
    assert_eq!(motor(&out[0]), (0, 65));
    assert_eq!(motor(&out[6]), (1, 55));
    assert_eq!(motor(&out[12]), (2, 65));
    assert_eq!(motor(&out[18]), (3, 55));
    assert_eq!(servo(&out[2]), (0, 10));
    assert_eq!(servo(&out[4]), (1, 5));
    assert_eq!(servo(&out[8]), (2, 10));
    assert_eq!(servo(&out[10]), (3, 5));
    assert_eq!(servo(&out[22]), (7, 5));
}

#[test]
fn manual_step_forwards_every_command() {
    let mut a = BlimpMainAlgo::new();
    a.handle_event(&BlimpEvent::Control(ctrl(50, 10, 5))).unwrap();
    let out = a.step();
    assert_eq!(out.len(), 24);
    for k in 0..12 {
        let cmd = &out[2 * k];
        assert!(!matches!(cmd, BlimpAction::SendMsg(_)));
        let expected = encode_b2g(&MessageB2G::ForwardAction(cmd.clone()));
        assert_eq!(sent_bytes(&out[2 * k + 1]), expected);
    }
    let fwd = sent_bytes(&out[1]);
    assert_eq!(fwd, vec![2, 1, 0, 0x82, 0x01]);
    let decoded: (u32, u32, u8, i32) = postcard::from_bytes(&fwd).unwrap();
    assert_eq!(decoded, (2, 1, 0, 65));
    let fwd_servo = sent_bytes(&out[5]);
    let decoded: (u32, u32, u8, i16) = postcard::from_bytes(&fwd_servo).unwrap();
    assert_eq!(decoded, (2, 0, 1, 5));
}

#[test]
fn step_leaves_state_unchanged() {
    let mut a = BlimpMainAlgo::new();
    a.handle_event(&BlimpEvent::Control(ctrl(1, 2, 3))).unwrap();
    a.step();
    assert_eq!(a.controls(), ctrl(1, 2, 3));
    assert_eq!(a.flight_mode(), FlightMode::Manual);
}

#[test]
fn stabilize_mode_emits_nothing() {
    let mut a = BlimpMainAlgo::new();
    a.handle_event(&BlimpEvent::Control(ctrl(50, 10, 5))).unwrap();
    a.set_flight_mode(FlightMode::StabilizeAttiAlti);
    assert_eq!(a.flight_mode(), FlightMode::StabilizeAttiAlti);
    assert!(a.step().is_empty());
    a.set_flight_mode(FlightMode::Manual);
    assert_eq!(a.step().len(), 24);
}

#[test]
fn motor_speed_wraps_on_overflow() {
    let mut a = BlimpMainAlgo::new();
    a.handle_event(&BlimpEvent::Control(ctrl(i32::MAX, 0, 1))).unwrap();
    let out = a.step();
    assert_eq!(motor(&out[0]), (0, i32::MIN));
    assert_eq!(motor(&out[6]), (1, i32::MAX - 1));
}

#[test]
fn servo_location_keeps_low_bits() {
    let mut a = BlimpMainAlgo::new();
    a.handle_event(&BlimpEvent::Control(ctrl(0, 70000, -3))).unwrap();
    let out = a.step();
    assert_eq!(servo(&out[2]), (0, 4464));
    assert_eq!(servo(&out[4]), (1, -3));
}

#[test]
fn ping_is_answered_with_pong() {
    let mut a = BlimpMainAlgo::new();
    let ping = encode_g2b(&MessageG2B::Ping(7));
    assert_eq!(ping, vec![0, 7]);
    let out = a.handle_event(&BlimpEvent::GetMsg(ping)).unwrap();
    assert_eq!(out.len(), 1);
    let pong = sent_bytes(&out[0]);
    let decoded: (u32, u32) = postcard::from_bytes(&pong).unwrap();
    assert_eq!(decoded, (1, 7));
    assert_eq!(a.controls(), ctrl(0, 0, 0));
}

#[test]
fn pong_is_ignored() {
    let mut a = BlimpMainAlgo::new();
    let out = a.handle_event(&BlimpEvent::GetMsg(encode_g2b(&MessageG2B::Pong(3)))).unwrap();
    assert!(out.is_empty());
}

#[test]
fn forwarded_control_acts_as_control_event() {
    let c = ctrl(-40, 12, 300);
    let mut a = BlimpMainAlgo::new();
    let out = a.handle_event(&BlimpEvent::GetMsg(encode_g2b(&MessageG2B::Control(c)))).unwrap();
    assert!(out.is_empty());
    assert_eq!(a.controls(), c);
    let mut b = BlimpMainAlgo::new();
    let direct = b.handle_event(&BlimpEvent::Control(c)).unwrap();
    assert_eq!(direct.len(), out.len());
    assert_eq!(b.controls(), a.controls());
}

#[test]
fn every_sensor_reading_is_forwarded_once() {
    let kinds = [
        (SensorType::Barometer, 0u32),
        (SensorType::GPSLatitude, 1),
        (SensorType::GPSLongitude, 2),
        (SensorType::GPSAltitude, 3),
    ];
    for (t, idx) in kinds {
        let mut a = BlimpMainAlgo::new();
        let out = a.handle_event(&sensor(t, 1234.5)).unwrap();
        assert_eq!(out.len(), 1);
        let bytes = sent_bytes(&out[0]);
        let decoded: (u32, u32, u32, f64) = postcard::from_bytes(&bytes).unwrap();
        assert_eq!(decoded, (3, 2, idx, 1234.5));
    }
}

#[test]
fn gps_altitude_changes_nothing() {
    let mut a = BlimpMainAlgo::new();
    a.handle_event(&sensor(SensorType::GPSAltitude, 50.0)).unwrap();
    assert_eq!(a.gps_location(), None);
    assert_eq!(a.pressure(), None);
}

#[test]
fn gps_latitude_then_longitude() {
    let mut a = BlimpMainAlgo::new();
    a.handle_event(&sensor(SensorType::GPSLatitude, 10.0)).unwrap();
    assert_eq!(a.gps_location(), Some((10.0f64.to_bits(), 0.0f64.to_bits())));
    a.handle_event(&sensor(SensorType::GPSLongitude, 20.0)).unwrap();
    assert_eq!(a.gps_location(), Some((10.0f64.to_bits(), 20.0f64.to_bits())));
    a.handle_event(&sensor(SensorType::GPSLatitude, -5.5)).unwrap();
    assert_eq!(a.gps_location(), Some(((-5.5f64).to_bits(), 20.0f64.to_bits())));
}

#[test]
fn gps_longitude_alone() {
    let mut a = BlimpMainAlgo::new();
    a.handle_event(&sensor(SensorType::GPSLongitude, 20.0)).unwrap();
    assert_eq!(a.gps_location(), Some((0.0f64.to_bits(), 20.0f64.to_bits())));
}

#[test]
fn barometer_keeps_positive_finite_readings() {
    let mut a = BlimpMainAlgo::new();
    a.handle_event(&sensor(SensorType::Barometer, 101325.0)).unwrap();
    assert_eq!(a.pressure(), Some(101325.0f64.to_bits()));
    for bad in [0.0, -0.0, -100.0, f64::NAN, f64::INFINITY, f64::NEG_INFINITY] {
        let out = a.handle_event(&sensor(SensorType::Barometer, bad)).unwrap();
        assert_eq!(out.len(), 1);
        assert_eq!(a.pressure(), Some(101325.0f64.to_bits()));
    }
    a.handle_event(&sensor(SensorType::Barometer, f64::MIN_POSITIVE / 2.0)).unwrap();
    assert_eq!(a.pressure(), Some((f64::MIN_POSITIVE / 2.0).to_bits()));
}

#[test]
fn undecodable_datagram_changes_nothing() {
    let mut a = BlimpMainAlgo::new();
    a.handle_event(&BlimpEvent::Control(ctrl(1, 2, 3))).unwrap();
    a.handle_event(&sensor(SensorType::Barometer, 90000.0)).unwrap();
    a.handle_event(&sensor(SensorType::GPSLatitude, 1.0)).unwrap();
    let cases: [(Vec<u8>, DecodeError); 5] = [
        (vec![], DecodeError::BadEncoding),
        (vec![0], DecodeError::BadEncoding),
        (vec![2, 2, 4], DecodeError::BadEncoding),
        (vec![7, 1], DecodeError::UnknownVariant(7)),
        (vec![0x80, 0x80, 0x80, 0x80, 0x80], DecodeError::BadEncoding),
    ];
    for (bytes, err) in cases {
        assert_eq!(a.handle_event(&BlimpEvent::GetMsg(bytes)).unwrap_err(), err);
        assert_eq!(a.controls(), ctrl(1, 2, 3));
        assert_eq!(a.pressure(), Some(90000.0f64.to_bits()));
        assert_eq!(a.gps_location(), Some((1.0f64.to_bits(), 0)));
    }
}

#[test]
fn decode_reads_postcard_messages() {
    let bytes = postcard::to_stdvec(&(2u32, -40i32, 12i32, 300i32)).unwrap();
    assert_eq!(decode_g2b(&bytes), Ok(MessageG2B::Control(ctrl(-40, 12, 300))));
    assert_eq!(decode_g2b(&[1, 0xAC, 0x02]), Ok(MessageG2B::Pong(300)));
    assert_eq!(decode_g2b(&[0, 9, 0xFF, 0xFF]), Ok(MessageG2B::Ping(9)));
    assert_eq!(decode_g2b(&[0x80, 0x00, 5]), Ok(MessageG2B::Ping(5)));
    assert_eq!(
        decode_g2b(&[0, 0xFF, 0xFF, 0xFF, 0xFF, 0x0F]),
        Ok(MessageG2B::Ping(u32::MAX))
    );
    assert_eq!(decode_g2b(&[0, 0xFF, 0xFF, 0xFF, 0xFF, 0x10]), Err(DecodeError::BadEncoding));
    assert_eq!(decode_g2b(&[3]), Err(DecodeError::UnknownVariant(3)));
}

#[test]
fn encode_g2b_round_trips() {
    for m in [
        MessageG2B::Ping(0),
        MessageG2B::Pong(u32::MAX),
        MessageG2B::Control(ctrl(i32::MIN, i32::MAX, -1)),
    ] {
        let mut bytes = encode_g2b(&m);
        bytes.push(0xAA);
        assert_eq!(decode_g2b(&bytes), Ok(m));
    }
    assert_eq!(
        encode_g2b(&MessageG2B::Control(ctrl(-1, 1, 64))),
        vec![2, 1, 2, 0x80, 0x01]
    );
}

#[test]
fn encode_b2g_bytes() {
    assert_eq!(encode_b2g(&MessageB2G::Ping(300)), vec![0, 0xAC, 0x02]);
    assert_eq!(encode_b2g(&MessageB2G::Pong(1)), vec![1, 1]);
    assert_eq!(
        encode_b2g(&MessageB2G::ForwardAction(BlimpAction::SendMsg(vec![9, 8]))),
        vec![2, 2, 2, 9, 8]
    );
    assert_eq!(
        encode_b2g(&MessageB2G::ForwardEvent(BlimpEvent::GetMsg(vec![1, 2]))),
        vec![3, 1, 2, 1, 2]
    );
    assert_eq!(
        encode_b2g(&MessageB2G::ForwardEvent(BlimpEvent::Control(ctrl(-2, 0, 100)))),
        vec![3, 0, 3, 0, 0xC8, 0x01]
    );
    assert_eq!(
        encode_b2g(&MessageB2G::ForwardAction(BlimpAction::SetServo {
            servo: 3,
            location: i16::MIN
        })),
        vec![2, 0, 3, 0xFF, 0xFF, 0x03]
    );
    let ev = encode_b2g(&MessageB2G::ForwardEvent(sensor(SensorType::GPSLongitude, -2.25)));
    let mut expected = vec![3, 2, 2];
    expected.extend_from_slice(&(-2.25f64).to_le_bytes());
    assert_eq!(ev, expected);
}
