use ros_tunnel::roomba_interface::{
    clamp_negative, clean, drive, drive_direct, parse_packet, parse_sensor_data, pause_stream,
    query, query_list, read_packet, reset, seek_dock, set_leds, set_seven_segment, spot, start,
    start_stream, stop, take_control, ChargingState, DriveCommand, Error, LedState, OIMode, Sensor,
    SensorData, TurnDirection, PACKET_START,
};
use ros_tunnel::sensors::{query_list_from_ros_message, SensorQuery};

const ALL_IDS: [u8; 49] = [
    7, 8, 9, 10, 11, 12, 13, 14, 15, 16, 52, 53, 18, 19, 20, 21, 22, 23, 24, 25, 26, 27, 28, 29, 30,
    31, 34, 35, 36, 37, 38, 39, 40, 41, 42, 43, 44, 45, 46, 47, 48, 49, 50, 51, 54, 55, 56, 57, 58,
];

#[test]
fn sensor_numbers_round_trip() {
    for id in 0..=255u8 {
        match Sensor::try_from_primitive(id) {
            Ok(sensor) => {
                assert!(ALL_IDS.contains(&id));
                assert_eq!(sensor.id(), id);
            }
            Err(error) => {
                assert!(!ALL_IDS.contains(&id));
                assert_eq!(error, Error::InvalidSensorTypeID(id));
            }
        }
    }
    assert_eq!(Sensor::try_from_primitive(7), Ok(Sensor::BumpersAndWheelDrops));
    assert_eq!(Sensor::try_from_primitive(52), Ok(Sensor::InfraredCharacterLeft));
    assert_eq!(Sensor::try_from_primitive(58), Ok(Sensor::IsMovingForward));
    assert_eq!(Sensor::try_from_primitive(17), Err(Error::InvalidSensorTypeID(17)));
}

#[test]
fn charging_states_and_modes() {
    assert_eq!(ChargingState::try_from_primitive(0), Ok(ChargingState::NotCharging));
    assert_eq!(ChargingState::try_from_primitive(5), Ok(ChargingState::ChargingFaultCondition));
    assert_eq!(ChargingState::try_from_primitive(6), Err(Error::InvalidBatteryState(6)));
    assert_eq!(OIMode::try_from_primitive(3), Ok(OIMode::Full));
    assert_eq!(OIMode::try_from_primitive(4), Err(Error::InvalidOIMode(4)));
}

#[test]
fn single_byte_readings() {
    assert_eq!(
        parse_sensor_data(Sensor::BumpersAndWheelDrops, &[0b0000_0110], 0),
        (
            Ok(SensorData::BumpersAndWheelDrops {
                wheel_drop_left: true,
                wheel_drop_right: false,
                bumper_left: true,
                bumper_right: false,
            }),
            1
        )
    );
    assert_eq!(parse_sensor_data(Sensor::Wall, &[0, 3], 1), (Ok(SensorData::Wall(true)), 2));
    assert_eq!(parse_sensor_data(Sensor::Wall, &[2], 0), (Ok(SensorData::Wall(false)), 1));
    assert_eq!(
        parse_sensor_data(Sensor::WheelOvercurrents, &[0b0001_0101], 0),
        (
            Ok(SensorData::WheelOvercurrents {
                left_wheel: true,
                right_wheel: false,
                main_brush: true,
                side_brush: true,
            }),
            1
        )
    );
    assert_eq!(
        parse_sensor_data(Sensor::Buttons, &[0b1010_0101], 0),
        (
            Ok(SensorData::Buttons {
                clock: true,
                schedule: false,
                day: true,
                hour: false,
                minute: false,
                dock: true,
                spot: false,
                clean: true,
            }),
            1
        )
    );
    assert_eq!(
        parse_sensor_data(Sensor::ChargingSourcesAvailable, &[2], 0),
        (Ok(SensorData::ChargingSourcesAvailable { home_base: true, internal_charger: false }), 1)
    );
    assert_eq!(
        parse_sensor_data(Sensor::LightBumper, &[0b0010_1001], 0),
        (
            Ok(SensorData::LightBumper {
                right: true,
                front_right: false,
                center_right: true,
                center_left: false,
                front_left: false,
                left: true,
            }),
            1
        )
    );
    assert_eq!(
        parse_sensor_data(Sensor::DirtDetect, &[200], 0),
        (Ok(SensorData::DirtDetect(200)), 1)
    );
    assert_eq!(
        parse_sensor_data(Sensor::SongPlaying, &[7], 0),
        (Ok(SensorData::SongPlaying(true)), 1)
    );
    assert_eq!(
        parse_sensor_data(Sensor::IsMovingForward, &[0], 0),
        (Ok(SensorData::IsMovingForward(false)), 1)
    );
    assert_eq!(
        parse_sensor_data(Sensor::BatteryTemperature, &[0xF6], 0),
        (Ok(SensorData::BatteryTemperature(-10)), 1)
    );
    assert_eq!(
        parse_sensor_data(Sensor::BatteryTemperature, &[25], 0),
        (Ok(SensorData::BatteryTemperature(25)), 1)
    );
    assert_eq!(
        parse_sensor_data(Sensor::ChargingState, &[2], 0),
        (Ok(SensorData::ChargingState(ChargingState::FullCharging)), 1)
    );
    assert_eq!(
        parse_sensor_data(Sensor::ChargingState, &[9], 0),
        (Err(Error::InvalidBatteryState(9)), 1)
    );
    assert_eq!(
        parse_sensor_data(Sensor::OIMode, &[1], 0),
        (Ok(SensorData::OIMode(OIMode::Passive)), 1)
    );
    assert_eq!(parse_sensor_data(Sensor::OIMode, &[7], 0), (Err(Error::InvalidOIMode(7)), 1));
}

#[test]
fn two_byte_readings() {
    assert_eq!(
        parse_sensor_data(Sensor::Distance, &[0xFF, 0x38], 0),
        (Ok(SensorData::Distance(i16::from_be_bytes([0xFF, 0x38]))), 2)
    );
    assert_eq!(
        parse_sensor_data(Sensor::Distance, &[0xFF, 0x38], 0),
        (Ok(SensorData::Distance(-200)), 2)
    );
    assert_eq!(
        parse_sensor_data(Sensor::Voltage, &[0x3A, 0x98], 0),
        (Ok(SensorData::Voltage(15000)), 2)
    );
    assert_eq!(
        parse_sensor_data(Sensor::Current, &[0x80, 0x00], 0),
        (Ok(SensorData::Current(i16::MIN)), 2)
    );
    assert_eq!(
        parse_sensor_data(Sensor::RightEncoderCounts, &[9, 0xFF, 0xFF], 1),
        (Ok(SensorData::RightEncoderCounts(65535)), 3)
    );
    for high in [0u8, 1, 0x7F, 0x80, 0xFF] {
        for low in [0u8, 1, 0x7F, 0x80, 0xFF] {
            assert_eq!(
                parse_sensor_data(Sensor::Angle, &[high, low], 0),
                (Ok(SensorData::Angle(i16::from_be_bytes([high, low]))), 2)
            );
            assert_eq!(
                parse_sensor_data(Sensor::WallSignal, &[high, low], 0),
                (Ok(SensorData::WallSignal(u16::from_be_bytes([high, low]))), 2)
            );
        }
    }
}

#[test]
fn readings_that_are_handed_on_under_another_name() {
    assert_eq!(
        parse_sensor_data(Sensor::InfraredCharacterRight, &[161], 0),
        (Ok(SensorData::InfraredCharacterLeft(161)), 1)
    );
    assert_eq!(
        parse_sensor_data(Sensor::LightBumpLeftSignal, &[1, 2], 0),
        (Ok(SensorData::LightBumpCenterLeftSignal(258)), 2)
    );
    assert_eq!(
        parse_sensor_data(Sensor::LightBumpRightSignal, &[1, 2], 0),
        (Ok(SensorData::LightBumpRightSignal(258)), 2)
    );
}

#[test]
fn reading_cut_short() {
    assert_eq!(parse_sensor_data(Sensor::Wall, &[], 0), (Err(Error::UnexpectedEnd), 0));
    assert_eq!(parse_sensor_data(Sensor::Distance, &[1], 0), (Err(Error::UnexpectedEnd), 1));
    assert_eq!(parse_sensor_data(Sensor::Distance, &[1, 2, 3], 2), (Err(Error::UnexpectedEnd), 3));
}

#[test]
fn packet_with_several_readings() {
    let payload = [8, 1, 19, 0xFF, 0x38, 21, 3, 25, 0x0A, 0x8C];
    assert_eq!(
        parse_packet(&payload),
        vec![
            Ok(SensorData::Wall(true)),
            Ok(SensorData::Distance(-200)),
            Ok(SensorData::ChargingState(ChargingState::TrickleCharging)),
            Ok(SensorData::BatteryCharge(2700)),
        ]
    );
    assert_eq!(parse_packet(&[]), Vec::<Result<SensorData, Error>>::new());
}

#[test]
fn packet_with_bad_readings() {
    // An unknown sensor number ends the packet.
    assert_eq!(
        parse_packet(&[8, 1, 99, 8, 1]),
        vec![Ok(SensorData::Wall(true)), Err(Error::InvalidSensorTypeID(99))]
    );
    // A bad value is reported and the packet is read on.
    assert_eq!(
        parse_packet(&[21, 9, 8, 0]),
        vec![Err(Error::InvalidBatteryState(9)), Ok(SensorData::Wall(false))]
    );
    // A reading cut short ends the packet.
    assert_eq!(
        parse_packet(&[8, 1, 19, 5]),
        vec![Ok(SensorData::Wall(true)), Err(Error::UnexpectedEnd)]
    );
    assert_eq!(parse_packet(&[8]), vec![Err(Error::UnexpectedEnd)]);
}

fn with_checksum(length: u8, payload: &[u8]) -> Vec<u8> {
    let mut sum = PACKET_START.wrapping_add(length);
    for byte in payload {
        sum = sum.wrapping_add(*byte);
    }
    let mut body = payload.to_vec();
    body.push(0u8.wrapping_sub(sum));
    body
}

#[test]
fn packet_checksum() {
    assert_eq!(PACKET_START, 19);
    let payload = [8, 1, 22, 0x3A, 0x98];
    let body = with_checksum(5, &payload);
    assert_eq!(body.len(), 6);
    assert_eq!(
        read_packet(5, &body),
        Some(vec![Ok(SensorData::Wall(true)), Ok(SensorData::Voltage(15000))])
    );
    let mut broken = body.clone();
    broken[1] ^= 0x40;
    assert_eq!(read_packet(5, &broken), None);
    assert_eq!(read_packet(4, &body), None);
    assert_eq!(read_packet(0, &[]), None);
    // The empty packet: 19 + 0 + 237 = 256.
    assert_eq!(read_packet(0, &[237]), Some(vec![]));

    let long: Vec<u8> = (0..200).map(|i| if i % 2 == 0 { 15 } else { i as u8 }).collect();
    let body = with_checksum(200, &long);
    assert_eq!(read_packet(200, &body).map(|readings| readings.len()), Some(100));
}

#[test]
fn single_byte_commands() {
    assert_eq!(start(), vec![128]);
    assert_eq!(reset(), vec![7]);
    assert_eq!(stop(), vec![173]);
    assert_eq!(take_control(), vec![131]);
    assert_eq!(clean(), vec![135]);
    assert_eq!(spot(), vec![134]);
    assert_eq!(seek_dock(), vec![143]);
    assert_eq!(pause_stream(true), vec![150, 0]);
    assert_eq!(pause_stream(false), vec![150, 1]);
}

#[test]
fn drive_commands() {
    assert_eq!(drive(DriveCommand::Straight(200)), vec![131, 137, 0x00, 0xC8, 0x7F, 0xFF]);
    assert_eq!(drive(DriveCommand::Straight(-200)), vec![131, 137, 0xFF, 0x38, 0x7F, 0xFF]);
    assert_eq!(
        drive(DriveCommand::Turn(TurnDirection::Left(100))),
        vec![131, 137, 0x00, 0x64, 0x00, 0x01]
    );
    assert_eq!(
        drive(DriveCommand::Turn(TurnDirection::Right(100))),
        vec![131, 137, 0x00, 0x64, 0xFF, 0xFF]
    );
    assert_eq!(
        drive(DriveCommand::Arc { radius: TurnDirection::Left(500), speed: -50 }),
        vec![131, 137, 0xFF, 0xCE, 0x01, 0xF4]
    );
    assert_eq!(
        drive(DriveCommand::Arc { radius: TurnDirection::Right(500), speed: 50 }),
        vec![131, 137, 0x00, 0x32, 0xFE, 0x0C]
    );
    assert_eq!(drive(DriveCommand::Stop), vec![131, 137, 0, 0, 0, 0]);
    // Numbers beyond the signed range wrap around.
    assert_eq!(
        drive(DriveCommand::Turn(TurnDirection::Left(0xFFFF))),
        vec![131, 137, 0xFF, 0xFF, 0x00, 0x01]
    );
    assert_eq!(
        drive(DriveCommand::Arc { radius: TurnDirection::Right(0x8000), speed: 0 }),
        vec![131, 137, 0x00, 0x00, 0x80, 0x00]
    );
    assert_eq!(drive_direct(100, -100), vec![131, 145, 0xFF, 0x9C, 0x00, 0x64]);
    assert_eq!(drive_direct(i16::MIN, i16::MAX), vec![131, 145, 0x7F, 0xFF, 0x80, 0x00]);
}

#[test]
fn led_command() {
    let dark = LedState {
        check_robot: false,
        dock: false,
        spot: false,
        debris: false,
        power_color: 0,
        power_intensity: 0,
    };
    assert_eq!(set_leds(dark), vec![131, 139, 0, 0, 0]);
    assert_eq!(set_leds(LedState { check_robot: true, ..dark }), vec![131, 139, 8, 0, 0]);
    assert_eq!(set_leds(LedState { dock: true, ..dark }), vec![131, 139, 4, 0, 0]);
    assert_eq!(set_leds(LedState { spot: true, ..dark }), vec![131, 139, 2, 0, 0]);
    assert_eq!(set_leds(LedState { debris: true, ..dark }), vec![131, 139, 1, 0, 0]);
    assert_eq!(
        set_leds(LedState {
            check_robot: true,
            dock: true,
            spot: true,
            debris: true,
            power_color: 128,
            power_intensity: 255,
        }),
        vec![131, 139, 15, 128, 255]
    );
}

#[test]
fn display_command() {
    assert_eq!(set_seven_segment("ABCD"), vec![131, 164, b'A', b'B', b'C', b'D']);
    assert_eq!(set_seven_segment("HI"), vec![131, 164, b'H', b'I', b' ', b' ']);
    assert_eq!(set_seven_segment(""), vec![131, 164, b' ', b' ', b' ', b' ']);
    assert_eq!(set_seven_segment("ROOMBA"), vec![131, 164, b'R', b'O', b'O', b'M']);
    // Characters beyond one byte are cut down to their low byte.
    assert_eq!(set_seven_segment("é€"), vec![131, 164, 0xE9, 0xAC, b' ', b' ']);
}

#[test]
fn sensor_list_commands() {
    assert_eq!(query(Sensor::Voltage), vec![131, 142, 22]);
    assert_eq!(
        query_list(&[Sensor::Wall, Sensor::Distance, Sensor::IsMovingForward]),
        vec![131, 142, 3, 8, 19, 58]
    );
    assert_eq!(query_list(&[]), vec![131, 142, 0]);
    assert_eq!(start_stream(&[Sensor::Buttons, Sensor::OIMode]), vec![131, 148, 2, 18, 35]);
    let many = vec![Sensor::Wall; 300];
    let bytes = start_stream(&many);
    assert_eq!(bytes.len(), 303);
    assert_eq!(bytes[2], 44);
}

#[test]
fn negative_numbers_count_as_zero() {
    assert_eq!(clamp_negative(-1), 0);
    assert_eq!(clamp_negative(i16::MIN), 0);
    assert_eq!(clamp_negative(0), 0);
    assert_eq!(clamp_negative(1500), 1500);
    assert_eq!(clamp_negative(i16::MAX), 32767);
}

fn empty_query() -> SensorQuery {
    SensorQuery {
        bumpers_and_wheel_drops: false,
        wall: false,
        cliff_left: false,
        cliff_front_left: false,
        cliff_front_right: false,
        cliff_right: false,
        virtual_wall: false,
        wheel_overcurrents: false,
        dirt_detect: false,
        infrared_character_omni: false,
        infrared_character_left: false,
        infrared_character_right: false,
        buttons: false,
        distance: false,
        angle: false,
        charging_state: false,
        voltage: false,
        current: false,
        battery_temperature: false,
        battery_charge: false,
        battery_capacity: false,
        wall_signal: false,
        cliff_left_signal: false,
        cliff_front_left_signal: false,
        cliff_front_right_signal: false,
        cliff_right_signal: false,
        charging_sources_available: false,
        oi_mode: false,
        song_number: false,
        song_playing: false,
        number_of_stream_packets: false,
        requested_velocity: false,
        requested_radius: false,
        requested_right_velocity: false,
        requested_left_velocity: false,
        left_encoder_counts: false,
        right_encoder_counts: false,
        light_bumper: false,
        light_bump_left_signal: false,
        light_bump_front_left_signal: false,
        light_bump_center_left_signal: false,
        light_bump_center_right_signal: false,
        light_bump_front_right_signal: false,
        light_bump_right_signal: false,
        left_motor_current: false,
        right_motor_current: false,
        main_brush_motor_current: false,
        side_brush_motor_current: false,
        is_moving_forward: false,
    }
}

#[test]
fn query_list_follows_the_flags() {
    assert_eq!(query_list_from_ros_message(&empty_query()), vec![]);
    assert_eq!(
        query_list_from_ros_message(&SensorQuery {
            is_moving_forward: true,
            wall: true,
            charging_state: true,
            infrared_character_right: true,
            ..empty_query()
        }),
        vec![
            Sensor::Wall,
            Sensor::InfraredCharacterRight,
            Sensor::ChargingState,
            Sensor::IsMovingForward
        ]
    );
    assert_eq!(
        query_list_from_ros_message(&SensorQuery {
            bumpers_and_wheel_drops: true,
            oi_mode: true,
            light_bump_left_signal: true,
            ..empty_query()
        }),
        vec![Sensor::BumpersAndWheelDrops, Sensor::OIMode, Sensor::LightBumpLeftSignal]
    );
}

#[test]
fn state_and_mode_numbers_round_trip() {
    for id in 0..=255u8 {
        if let Ok(state) = ChargingState::try_from_primitive(id) {
            assert_eq!(state.id(), id);
        } else {
            assert!(id > 5);
        }
        if let Ok(mode) = OIMode::try_from_primitive(id) {
            assert_eq!(mode.id(), id);
        } else {
            assert!(id > 3);
        }
    }
}
