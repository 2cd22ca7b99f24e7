//! The serial protocol of the cleaning robot: the commands it takes, the
//! sensors it reports, and the packets in which the readings arrive.
//!
//! Nothing here reads or writes a serial line. Commands are built as the
//! bytes to write, and readings are taken from bytes that were read.

use vstd::prelude::*;
use vstd::string::*;

verus! {

/// What can go wrong in talking to the robot.
#[derive(Debug, Clone, Copy, PartialEq, Eq)]
pub enum Error {
    /// A drive command asks for a speed or an arc out of the valid range.
    DriveRange,
    /// The robot sent data for a sensor of an unknown number.
    InvalidSensorTypeID(u8),
    /// The robot reported a charging state of an unknown number.
    InvalidBatteryState(u8),
    /// The robot reported an interface mode of an unknown number.
    InvalidOIMode(u8),
    /// A packet ended in the middle of a reading.
    UnexpectedEnd,
}

/// The sensors of the robot.
#[derive(Debug, Clone, Copy, PartialEq, Eq)]
pub enum Sensor {
    BumpersAndWheelDrops,
    Wall,
    CliffLeft,
    CliffFrontLeft,
    CliffFrontRight,
    CliffRight,
    VirtualWall,
    WheelOvercurrents,
    DirtDetect,
    InfraredCharacterOmni,
    InfraredCharacterLeft,
    InfraredCharacterRight,
    Buttons,
    Distance,
    Angle,
    ChargingState,
    Voltage,
    Current,
    BatteryTemperature,
    BatteryCharge,
    BatteryCapacity,
    WallSignal,
    CliffLeftSignal,
    CliffFrontLeftSignal,
    CliffFrontRightSignal,
    CliffRightSignal,
    ChargingSourcesAvailable,
    OIMode,
    SongNumber,
    SongPlaying,
    NumberOfStreamPackets,
    RequestedVelocity,
    RequestedRadius,
    RequestedRightVelocity,
    RequestedLeftVelocity,
    LeftEncoderCounts,
    RightEncoderCounts,
    LightBumper,
    LightBumpLeftSignal,
    LightBumpFrontLeftSignal,
    LightBumpCenterLeftSignal,
    LightBumpCenterRightSignal,
    LightBumpFrontRightSignal,
    LightBumpRightSignal,
    LeftMotorCurrent,
    RightMotorCurrent,
    MainBrushMotorCurrent,
    SideBrushMotorCurrent,
    IsMovingForward,
}

/// The mode of the robot's open interface.
#[derive(Debug, Clone, Copy, PartialEq, Eq)]
pub enum OIMode {
    Off,
    Passive,
    Safe,
    Full,
}

/// What the battery charger does.
#[derive(Debug, Clone, Copy, PartialEq, Eq)]
pub enum ChargingState {
    NotCharging,
    ReconditioningCharging,
    FullCharging,
    TrickleCharging,
    Waiting,
    ChargingFaultCondition,
}

/// One reading of one sensor.
#[derive(Debug, Clone, Copy, PartialEq, Eq)]
pub enum SensorData {
    BumpersAndWheelDrops {
        wheel_drop_left: bool,
        wheel_drop_right: bool,
        bumper_left: bool,
        bumper_right: bool,
    },
    Wall(bool),
    CliffLeft(bool),
    CliffFrontLeft(bool),
    CliffFrontRight(bool),
    CliffRight(bool),
    VirtualWall(bool),
    WheelOvercurrents {
        left_wheel: bool,
        right_wheel: bool,
        main_brush: bool,
        side_brush: bool,
    },
    DirtDetect(u8),
    InfraredCharacterOmni(u8),
    InfraredCharacterLeft(u8),
    InfraredCharacterRight(u8),
    Buttons {
        clock: bool,
        schedule: bool,
        day: bool,
        hour: bool,
        minute: bool,
        dock: bool,
        spot: bool,
        clean: bool,
    },
    /// In millimeters.
    Distance(i16),
    /// Counter clockwise is negative, clockwise is positive, in millimeters.
    Angle(i16),
    ChargingState(ChargingState),
    /// In millivolts.
    Voltage(u16),
    /// In milliamps.
    Current(i16),
    /// In degrees Celsius.
    BatteryTemperature(i8),
    /// In mAh.
    BatteryCharge(u16),
    /// In mAh.
    BatteryCapacity(u16),
    /// Strength of signal with 0 at 0% and 1023 at 100%.
    WallSignal(u16),
    /// Strength of signal with 0 at 0% and 4095 at 100%.
    CliffLeftSignal(u16),
    /// Strength of signal with 0 at 0% and 4095 at 100%.
    CliffFrontLeftSignal(u16),
    /// Strength of signal with 0 at 0% and 4095 at 100%.
    CliffFrontRightSignal(u16),
    /// Strength of signal with 0 at 0% and 4095 at 100%.
    CliffRightSignal(u16),
    ChargingSourcesAvailable {
        home_base: bool,
        internal_charger: bool,
    },
    OIMode(OIMode),
    SongNumber(u8),
    SongPlaying(bool),
    NumberOfStreamPackets(u8),
    /// In mm/s.
    RequestedVelocity(i16),
    /// In millimeters.
    RequestedRadius(i16),
    /// In mm/s.
    RequestedRightVelocity(i16),
    /// In mm/s.
    RequestedLeftVelocity(i16),
    LeftEncoderCounts(u16),
    RightEncoderCounts(u16),
    LightBumper {
        right: bool,
        front_right: bool,
        center_right: bool,
        center_left: bool,
        front_left: bool,
        left: bool,
    },
    /// Strength of signal with 0 at 0% and 4095 at 100%.
    LightBumpLeftSignal(u16),
    /// Strength of signal with 0 at 0% and 4095 at 100%.
    LightBumpFrontLeftSignal(u16),
    /// Strength of signal with 0 at 0% and 4095 at 100%.
    LightBumpCenterLeftSignal(u16),
    /// Strength of signal with 0 at 0% and 4095 at 100%.
    LightBumpCenterRightSignal(u16),
    /// Strength of signal with 0 at 0% and 4095 at 100%.
    LightBumpFrontRightSignal(u16),
    /// Strength of signal with 0 at 0% and 4095 at 100%.
    LightBumpRightSignal(u16),
    /// In mA.
    LeftMotorCurrent(i16),
    /// In mA.
    RightMotorCurrent(i16),
    /// In mA.
    MainBrushMotorCurrent(i16),
    /// In mA.
    SideBrushMotorCurrent(i16),
    /// Whether the robot makes forward progress.
    IsMovingForward(bool),
}

/// The lights of the robot.
#[derive(Debug, Clone, Copy, PartialEq, Eq)]
pub struct LedState {
    pub check_robot: bool,
    pub dock: bool,
    pub spot: bool,
    pub debris: bool,
    /// 0 is full green, 255 is full red, 128 is yellow.
    pub power_color: u8,
    pub power_intensity: u8,
}

/// A turn to one side; the number is a speed for a turn on the spot and a
/// radius for an arc.
#[derive(Debug, Clone, Copy, PartialEq, Eq)]
pub enum TurnDirection {
    Left(u16),
    Right(u16),
}

/// Instructions on how the robot should drive.
/// Speed must be between -500 to +500 mm/s.
/// Turn direction/radius can be between -2000 to 2000 mm.
#[derive(Debug, Clone, Copy, PartialEq, Eq)]
pub enum DriveCommand {
    Straight(i16),
    Turn(TurnDirection),
    Arc { radius: TurnDirection, speed: i16 },
    Stop,
}

/// The number by which the robot knows `sensor`.
pub open spec fn sensor_id(sensor: Sensor) -> u8 {
    match sensor {
        Sensor::BumpersAndWheelDrops => 7,
        Sensor::Wall => 8,
        Sensor::CliffLeft => 9,
        Sensor::CliffFrontLeft => 10,
        Sensor::CliffFrontRight => 11,
        Sensor::CliffRight => 12,
        Sensor::VirtualWall => 13,
        Sensor::WheelOvercurrents => 14,
        Sensor::DirtDetect => 15,
        Sensor::InfraredCharacterOmni => 16,
        Sensor::InfraredCharacterLeft => 52,
        Sensor::InfraredCharacterRight => 53,
        Sensor::Buttons => 18,
        Sensor::Distance => 19,
        Sensor::Angle => 20,
        Sensor::ChargingState => 21,
        Sensor::Voltage => 22,
        Sensor::Current => 23,
        Sensor::BatteryTemperature => 24,
        Sensor::BatteryCharge => 25,
        Sensor::BatteryCapacity => 26,
        Sensor::WallSignal => 27,
        Sensor::CliffLeftSignal => 28,
        Sensor::CliffFrontLeftSignal => 29,
        Sensor::CliffFrontRightSignal => 30,
        Sensor::CliffRightSignal => 31,
        Sensor::ChargingSourcesAvailable => 34,
        Sensor::OIMode => 35,
        Sensor::SongNumber => 36,
        Sensor::SongPlaying => 37,
        Sensor::NumberOfStreamPackets => 38,
        Sensor::RequestedVelocity => 39,
        Sensor::RequestedRadius => 40,
        Sensor::RequestedRightVelocity => 41,
        Sensor::RequestedLeftVelocity => 42,
        Sensor::LeftEncoderCounts => 43,
        Sensor::RightEncoderCounts => 44,
        Sensor::LightBumper => 45,
        Sensor::LightBumpLeftSignal => 46,
        Sensor::LightBumpFrontLeftSignal => 47,
        Sensor::LightBumpCenterLeftSignal => 48,
        Sensor::LightBumpCenterRightSignal => 49,
        Sensor::LightBumpFrontRightSignal => 50,
        Sensor::LightBumpRightSignal => 51,
        Sensor::LeftMotorCurrent => 54,
        Sensor::RightMotorCurrent => 55,
        Sensor::MainBrushMotorCurrent => 56,
        Sensor::SideBrushMotorCurrent => 57,
        Sensor::IsMovingForward => 58,
    }
}

/// The sensor that the robot knows by `id`, if there is one.
pub open spec fn sensor_with_id(id: u8) -> Option<Sensor> {
    if id == 7 {
        Some(Sensor::BumpersAndWheelDrops)
    } else if id == 8 {
        Some(Sensor::Wall)
    } else if id == 9 {
        Some(Sensor::CliffLeft)
    } else if id == 10 {
        Some(Sensor::CliffFrontLeft)
    } else if id == 11 {
        Some(Sensor::CliffFrontRight)
    } else if id == 12 {
        Some(Sensor::CliffRight)
    } else if id == 13 {
        Some(Sensor::VirtualWall)
    } else if id == 14 {
        Some(Sensor::WheelOvercurrents)
    } else if id == 15 {
        Some(Sensor::DirtDetect)
    } else if id == 16 {
        Some(Sensor::InfraredCharacterOmni)
    } else if id == 52 {
        Some(Sensor::InfraredCharacterLeft)
    } else if id == 53 {
        Some(Sensor::InfraredCharacterRight)
    } else if id == 18 {
        Some(Sensor::Buttons)
    } else if id == 19 {
        Some(Sensor::Distance)
    } else if id == 20 {
        Some(Sensor::Angle)
    } else if id == 21 {
        Some(Sensor::ChargingState)
    } else if id == 22 {
        Some(Sensor::Voltage)
    } else if id == 23 {
        Some(Sensor::Current)
    } else if id == 24 {
        Some(Sensor::BatteryTemperature)
    } else if id == 25 {
        Some(Sensor::BatteryCharge)
    } else if id == 26 {
        Some(Sensor::BatteryCapacity)
    } else if id == 27 {
        Some(Sensor::WallSignal)
    } else if id == 28 {
        Some(Sensor::CliffLeftSignal)
    } else if id == 29 {
        Some(Sensor::CliffFrontLeftSignal)
    } else if id == 30 {
        Some(Sensor::CliffFrontRightSignal)
    } else if id == 31 {
        Some(Sensor::CliffRightSignal)
    } else if id == 34 {
        Some(Sensor::ChargingSourcesAvailable)
    } else if id == 35 {
        Some(Sensor::OIMode)
    } else if id == 36 {
        Some(Sensor::SongNumber)
    } else if id == 37 {
        Some(Sensor::SongPlaying)
    } else if id == 38 {
        Some(Sensor::NumberOfStreamPackets)
    } else if id == 39 {
        Some(Sensor::RequestedVelocity)
    } else if id == 40 {
        Some(Sensor::RequestedRadius)
    } else if id == 41 {
        Some(Sensor::RequestedRightVelocity)
    } else if id == 42 {
        Some(Sensor::RequestedLeftVelocity)
    } else if id == 43 {
        Some(Sensor::LeftEncoderCounts)
    } else if id == 44 {
        Some(Sensor::RightEncoderCounts)
    } else if id == 45 {
        Some(Sensor::LightBumper)
    } else if id == 46 {
        Some(Sensor::LightBumpLeftSignal)
    } else if id == 47 {
        Some(Sensor::LightBumpFrontLeftSignal)
    } else if id == 48 {
        Some(Sensor::LightBumpCenterLeftSignal)
    } else if id == 49 {
        Some(Sensor::LightBumpCenterRightSignal)
    } else if id == 50 {
        Some(Sensor::LightBumpFrontRightSignal)
    } else if id == 51 {
        Some(Sensor::LightBumpRightSignal)
    } else if id == 54 {
        Some(Sensor::LeftMotorCurrent)
    } else if id == 55 {
        Some(Sensor::RightMotorCurrent)
    } else if id == 56 {
        Some(Sensor::MainBrushMotorCurrent)
    } else if id == 57 {
        Some(Sensor::SideBrushMotorCurrent)
    } else if id == 58 {
        Some(Sensor::IsMovingForward)
    } else {
        None
    }
}

/// The charging state with the number `id`, if there is one.
pub open spec fn charging_state_with_id(id: u8) -> Option<ChargingState> {
    if id == 0 {
        Some(ChargingState::NotCharging)
    } else if id == 1 {
        Some(ChargingState::ReconditioningCharging)
    } else if id == 2 {
        Some(ChargingState::FullCharging)
    } else if id == 3 {
        Some(ChargingState::TrickleCharging)
    } else if id == 4 {
        Some(ChargingState::Waiting)
    } else if id == 5 {
        Some(ChargingState::ChargingFaultCondition)
    } else {
        None
    }
}

/// The interface mode with the number `id`, if there is one.
pub open spec fn oi_mode_with_id(id: u8) -> Option<OIMode> {
    if id == 0 {
        Some(OIMode::Off)
    } else if id == 1 {
        Some(OIMode::Passive)
    } else if id == 2 {
        Some(OIMode::Safe)
    } else if id == 3 {
        Some(OIMode::Full)
    } else {
        None
    }
}

/// The unsigned 16-bit integer with the given bytes, high byte first.
pub open spec fn be_u16(high: u8, low: u8) -> u16 {
    (256 * high + low) as u16
}

/// The signed 16-bit integer with the given bytes in two's complement, high
/// byte first.
pub open spec fn be_i16(high: u8, low: u8) -> i16 {
    if high >= 128 {
        (256 * high + low - 65536) as i16
    } else {
        (256 * high + low) as i16
    }
}

/// The signed integer that the byte stands for in two's complement.
pub open spec fn signed_byte(byte: u8) -> i8 {
    if byte >= 128 {
        (byte - 256) as i8
    } else {
        byte as i8
    }
}

/// The high byte of `value` in two's complement.
pub open spec fn high_byte(value: i16) -> u8 {
    if value < 0 {
        ((value + 65536) / 256) as u8
    } else {
        (value / 256) as u8
    }
}

/// The low byte of `value` in two's complement.
pub open spec fn low_byte(value: i16) -> u8 {
    if value < 0 {
        ((value + 65536) % 256) as u8
    } else {
        (value % 256) as u8
    }
}

/// How many bytes a reading of `sensor` takes.
pub open spec fn reading_width(sensor: Sensor) -> int {
    match sensor {
        Sensor::Distance
        | Sensor::Angle
        | Sensor::Voltage
        | Sensor::Current
        | Sensor::BatteryCharge
        | Sensor::BatteryCapacity
        | Sensor::WallSignal
        | Sensor::CliffLeftSignal
        | Sensor::CliffFrontLeftSignal
        | Sensor::CliffFrontRightSignal
        | Sensor::CliffRightSignal
        | Sensor::RequestedVelocity
        | Sensor::RequestedRadius
        | Sensor::RequestedRightVelocity
        | Sensor::RequestedLeftVelocity
        | Sensor::LeftEncoderCounts
        | Sensor::RightEncoderCounts
        | Sensor::LightBumpLeftSignal
        | Sensor::LightBumpFrontLeftSignal
        | Sensor::LightBumpCenterLeftSignal
        | Sensor::LightBumpCenterRightSignal
        | Sensor::LightBumpFrontRightSignal
        | Sensor::LightBumpRightSignal
        | Sensor::LeftMotorCurrent
        | Sensor::RightMotorCurrent
        | Sensor::MainBrushMotorCurrent
        | Sensor::SideBrushMotorCurrent => 2,
        _ => 1,
    }
}

/// The reading of `sensor` that the bytes `first` and `second` stand for;
/// `second` counts only for a sensor whose reading takes two bytes.
///
/// A reading of the right infrared receiver is handed on as that of the left
/// one, and the signal of the left light bumper as that of the centre left
/// one.
pub open spec fn decode_reading(sensor: Sensor, first: u8, second: u8) -> Result<SensorData, Error> {
    match sensor {
        Sensor::BumpersAndWheelDrops => Ok(
            SensorData::BumpersAndWheelDrops {
                wheel_drop_left: first & 0x08 == 0,
                wheel_drop_right: first & 0x04 == 0,
                bumper_left: first & 0x02 != 0,
                bumper_right: first & 0x01 != 0,
            },
        ),
        Sensor::Wall => Ok(SensorData::Wall(first & 0x01 != 0)),
        Sensor::CliffLeft => Ok(SensorData::CliffLeft(first & 0x01 != 0)),
        Sensor::CliffFrontLeft => Ok(SensorData::CliffFrontLeft(first & 0x01 != 0)),
        Sensor::CliffFrontRight => Ok(SensorData::CliffFrontRight(first & 0x01 != 0)),
        Sensor::CliffRight => Ok(SensorData::CliffRight(first & 0x01 != 0)),
        Sensor::VirtualWall => Ok(SensorData::VirtualWall(first & 0x01 != 0)),
        Sensor::WheelOvercurrents => Ok(
            SensorData::WheelOvercurrents {
                left_wheel: first & 0x10 != 0,
                right_wheel: first & 0x08 != 0,
                main_brush: first & 0x04 != 0,
                side_brush: first & 0x01 != 0,
            },
        ),
        Sensor::DirtDetect => Ok(SensorData::DirtDetect(first)),
        Sensor::InfraredCharacterOmni => Ok(SensorData::InfraredCharacterOmni(first)),
        Sensor::InfraredCharacterLeft => Ok(SensorData::InfraredCharacterLeft(first)),
        Sensor::InfraredCharacterRight => Ok(SensorData::InfraredCharacterLeft(first)),
        Sensor::Buttons => Ok(
            SensorData::Buttons {
                clock: first & 0x80 != 0,
                schedule: first & 0x40 != 0,
                day: first & 0x20 != 0,
                hour: first & 0x10 != 0,
                minute: first & 0x08 != 0,
                dock: first & 0x04 != 0,
                spot: first & 0x02 != 0,
                clean: first & 0x01 != 0,
            },
        ),
        Sensor::Distance => Ok(SensorData::Distance(be_i16(first, second))),
        Sensor::Angle => Ok(SensorData::Angle(be_i16(first, second))),
        Sensor::ChargingState => match charging_state_with_id(first) {
            Some(state) => Ok(SensorData::ChargingState(state)),
            None => Err(Error::InvalidBatteryState(first)),
        },
        Sensor::Voltage => Ok(SensorData::Voltage(be_u16(first, second))),
        Sensor::Current => Ok(SensorData::Current(be_i16(first, second))),
        Sensor::BatteryTemperature => Ok(SensorData::BatteryTemperature(signed_byte(first))),
        Sensor::BatteryCharge => Ok(SensorData::BatteryCharge(be_u16(first, second))),
        Sensor::BatteryCapacity => Ok(SensorData::BatteryCapacity(be_u16(first, second))),
        Sensor::WallSignal => Ok(SensorData::WallSignal(be_u16(first, second))),
        Sensor::CliffLeftSignal => Ok(SensorData::CliffLeftSignal(be_u16(first, second))),
        Sensor::CliffFrontLeftSignal => Ok(SensorData::CliffFrontLeftSignal(be_u16(first, second))),
        Sensor::CliffFrontRightSignal => Ok(SensorData::CliffFrontRightSignal(be_u16(first, second))),
        Sensor::CliffRightSignal => Ok(SensorData::CliffRightSignal(be_u16(first, second))),
        Sensor::ChargingSourcesAvailable => Ok(
            SensorData::ChargingSourcesAvailable {
                home_base: first & 0x02 != 0,
                internal_charger: first & 0x01 != 0,
            },
        ),
        Sensor::OIMode => match oi_mode_with_id(first) {
            Some(mode) => Ok(SensorData::OIMode(mode)),
            None => Err(Error::InvalidOIMode(first)),
        },
        Sensor::SongNumber => Ok(SensorData::SongNumber(first)),
        Sensor::SongPlaying => Ok(SensorData::SongPlaying(first != 0)),
        Sensor::NumberOfStreamPackets => Ok(SensorData::NumberOfStreamPackets(first)),
        Sensor::RequestedVelocity => Ok(SensorData::RequestedVelocity(be_i16(first, second))),
        Sensor::RequestedRadius => Ok(SensorData::RequestedRadius(be_i16(first, second))),
        Sensor::RequestedRightVelocity => Ok(SensorData::RequestedRightVelocity(be_i16(first, second))),
        Sensor::RequestedLeftVelocity => Ok(SensorData::RequestedLeftVelocity(be_i16(first, second))),
        Sensor::LeftEncoderCounts => Ok(SensorData::LeftEncoderCounts(be_u16(first, second))),
        Sensor::RightEncoderCounts => Ok(SensorData::RightEncoderCounts(be_u16(first, second))),
        Sensor::LightBumper => Ok(
            SensorData::LightBumper {
                right: first & 0x20 != 0,
                front_right: first & 0x10 != 0,
                center_right: first & 0x08 != 0,
                center_left: first & 0x04 != 0,
                front_left: first & 0x02 != 0,
                left: first & 0x01 != 0,
            },
        ),
        Sensor::LightBumpLeftSignal => Ok(SensorData::LightBumpCenterLeftSignal(be_u16(first, second))),
        Sensor::LightBumpFrontLeftSignal => Ok(SensorData::LightBumpFrontLeftSignal(be_u16(first, second))),
        Sensor::LightBumpCenterLeftSignal => Ok(SensorData::LightBumpCenterLeftSignal(be_u16(first, second))),
        Sensor::LightBumpCenterRightSignal => Ok(SensorData::LightBumpCenterRightSignal(be_u16(first, second))),
        Sensor::LightBumpFrontRightSignal => Ok(SensorData::LightBumpFrontRightSignal(be_u16(first, second))),
        Sensor::LightBumpRightSignal => Ok(SensorData::LightBumpRightSignal(be_u16(first, second))),
        Sensor::LeftMotorCurrent => Ok(SensorData::LeftMotorCurrent(be_i16(first, second))),
        Sensor::RightMotorCurrent => Ok(SensorData::RightMotorCurrent(be_i16(first, second))),
        Sensor::MainBrushMotorCurrent => Ok(SensorData::MainBrushMotorCurrent(be_i16(first, second))),
        Sensor::SideBrushMotorCurrent => Ok(SensorData::SideBrushMotorCurrent(be_i16(first, second))),
        Sensor::IsMovingForward => Ok(SensorData::IsMovingForward(first != 0)),
    }
}

/// What reading a sensor at a place in a payload gives, and where the
/// payload is read on from.
pub struct Reading {
    pub outcome: Result<SensorData, Error>,
    pub next: int,
}

/// Reads `sensor` from `payload` at `at`. Where the payload ends before the
/// reading does, the outcome is `UnexpectedEnd` and nothing is left to read.
pub open spec fn sensor_reading(sensor: Sensor, payload: Seq<u8>, at: int) -> Reading {
    if at + reading_width(sensor) > payload.len() {
        Reading { outcome: Err(Error::UnexpectedEnd), next: payload.len() as int }
    } else {
        Reading {
            outcome: decode_reading(
                sensor,
                payload[at],
                if reading_width(sensor) == 2 {
                    payload[at + 1]
                } else {
                    0
                },
            ),
            next: at + reading_width(sensor),
        }
    }
}

/// The readings in the payload of a packet from `at` on: a sensor number,
/// then the reading of that sensor, again and again. An unknown sensor
/// number is reported and ends the packet; a reading that cannot be taken is
/// reported and the packet is read on behind it.
pub open spec fn packet_readings(payload: Seq<u8>, at: int) -> Seq<Result<SensorData, Error>>
    decreases payload.len() - at,
{
    if at < 0 || at >= payload.len() {
        Seq::empty()
    } else {
        match sensor_with_id(payload[at]) {
            None => seq![Err(Error::InvalidSensorTypeID(payload[at]))],
            Some(sensor) => seq![sensor_reading(sensor, payload, at + 1).outcome]
                + packet_readings(payload, sensor_reading(sensor, payload, at + 1).next),
        }
    }
}

/// The sum of `bytes` modulo 256.
pub open spec fn byte_sum(bytes: Seq<u8>) -> int
    decreases bytes.len(),
{
    if bytes.len() == 0 {
        0
    } else {
        (byte_sum(bytes.drop_last()) + bytes.last()) % 256
    }
}

/// The byte that starts every packet of sensor readings.
pub const PACKET_START: u8 = 19;

/// Whether a packet arrived whole: its start byte, its length byte and its
/// body, which ends in the checksum, add up to 0 modulo 256.
pub open spec fn packet_is_sound(length: u8, body: Seq<u8>) -> bool {
    (byte_sum(body) + PACKET_START + length) % 256 == 0
}

/// What a packet holds: nothing if it did not arrive whole, else the
/// readings in its body without the checksum.
pub open spec fn packet_contents(length: u8, body: Seq<u8>) -> Option<
    Seq<Result<SensorData, Error>>,
> {
    if body.len() > 0 && packet_is_sound(length, body) {
        Some(packet_readings(body.drop_last(), 0))
    } else {
        None
    }
}

/// Every sensor is found again by its number, and by no other.
pub proof fn lemma_sensor_numbers(sensor: Sensor, id: u8)
    ensures
        sensor_with_id(sensor_id(sensor)) == Some(sensor),
        sensor_with_id(id) == Some(sensor) ==> sensor_id(sensor) == id,
{
}

/// A signed 16-bit integer is read back from its two bytes.
pub proof fn lemma_i16_bytes(value: i16)
    ensures
        be_i16(high_byte(value), low_byte(value)) == value,
{
}

impl Sensor {
    /// The number by which the robot knows this sensor.
    pub fn id(&self) -> (id: u8)
        ensures
            id == sensor_id(*self),
    {
        match self {
            Sensor::BumpersAndWheelDrops => 7,
            Sensor::Wall => 8,
            Sensor::CliffLeft => 9,
            Sensor::CliffFrontLeft => 10,
            Sensor::CliffFrontRight => 11,
            Sensor::CliffRight => 12,
            Sensor::VirtualWall => 13,
            Sensor::WheelOvercurrents => 14,
            Sensor::DirtDetect => 15,
            Sensor::InfraredCharacterOmni => 16,
            Sensor::InfraredCharacterLeft => 52,
            Sensor::InfraredCharacterRight => 53,
            Sensor::Buttons => 18,
            Sensor::Distance => 19,
            Sensor::Angle => 20,
            Sensor::ChargingState => 21,
            Sensor::Voltage => 22,
            Sensor::Current => 23,
            Sensor::BatteryTemperature => 24,
            Sensor::BatteryCharge => 25,
            Sensor::BatteryCapacity => 26,
            Sensor::WallSignal => 27,
            Sensor::CliffLeftSignal => 28,
            Sensor::CliffFrontLeftSignal => 29,
            Sensor::CliffFrontRightSignal => 30,
            Sensor::CliffRightSignal => 31,
            Sensor::ChargingSourcesAvailable => 34,
            Sensor::OIMode => 35,
            Sensor::SongNumber => 36,
            Sensor::SongPlaying => 37,
            Sensor::NumberOfStreamPackets => 38,
            Sensor::RequestedVelocity => 39,
            Sensor::RequestedRadius => 40,
            Sensor::RequestedRightVelocity => 41,
            Sensor::RequestedLeftVelocity => 42,
            Sensor::LeftEncoderCounts => 43,
            Sensor::RightEncoderCounts => 44,
            Sensor::LightBumper => 45,
            Sensor::LightBumpLeftSignal => 46,
            Sensor::LightBumpFrontLeftSignal => 47,
            Sensor::LightBumpCenterLeftSignal => 48,
            Sensor::LightBumpCenterRightSignal => 49,
            Sensor::LightBumpFrontRightSignal => 50,
            Sensor::LightBumpRightSignal => 51,
            Sensor::LeftMotorCurrent => 54,
            Sensor::RightMotorCurrent => 55,
            Sensor::MainBrushMotorCurrent => 56,
            Sensor::SideBrushMotorCurrent => 57,
            Sensor::IsMovingForward => 58,
        }
    }

    /// The sensor with the number `id`; an unknown number is handed back as
    /// the error.
    pub fn try_from_primitive(id: u8) -> (sensor: Result<Sensor, Error>)
        ensures
            sensor == (match sensor_with_id(id) {
                Some(found) => Ok::<Sensor, Error>(found),
                None => Err::<Sensor, Error>(Error::InvalidSensorTypeID(id)),
            }),
    {
        if id == 7 {
            Ok(Sensor::BumpersAndWheelDrops)
        } else if id == 8 {
            Ok(Sensor::Wall)
        } else if id == 9 {
            Ok(Sensor::CliffLeft)
        } else if id == 10 {
            Ok(Sensor::CliffFrontLeft)
        } else if id == 11 {
            Ok(Sensor::CliffFrontRight)
        } else if id == 12 {
            Ok(Sensor::CliffRight)
        } else if id == 13 {
            Ok(Sensor::VirtualWall)
        } else if id == 14 {
            Ok(Sensor::WheelOvercurrents)
        } else if id == 15 {
            Ok(Sensor::DirtDetect)
        } else if id == 16 {
            Ok(Sensor::InfraredCharacterOmni)
        } else if id == 52 {
            Ok(Sensor::InfraredCharacterLeft)
        } else if id == 53 {
            Ok(Sensor::InfraredCharacterRight)
        } else if id == 18 {
            Ok(Sensor::Buttons)
        } else if id == 19 {
            Ok(Sensor::Distance)
        } else if id == 20 {
            Ok(Sensor::Angle)
        } else if id == 21 {
            Ok(Sensor::ChargingState)
        } else if id == 22 {
            Ok(Sensor::Voltage)
        } else if id == 23 {
            Ok(Sensor::Current)
        } else if id == 24 {
            Ok(Sensor::BatteryTemperature)
        } else if id == 25 {
            Ok(Sensor::BatteryCharge)
        } else if id == 26 {
            Ok(Sensor::BatteryCapacity)
        } else if id == 27 {
            Ok(Sensor::WallSignal)
        } else if id == 28 {
            Ok(Sensor::CliffLeftSignal)
        } else if id == 29 {
            Ok(Sensor::CliffFrontLeftSignal)
        } else if id == 30 {
            Ok(Sensor::CliffFrontRightSignal)
        } else if id == 31 {
            Ok(Sensor::CliffRightSignal)
        } else if id == 34 {
            Ok(Sensor::ChargingSourcesAvailable)
        } else if id == 35 {
            Ok(Sensor::OIMode)
        } else if id == 36 {
            Ok(Sensor::SongNumber)
        } else if id == 37 {
            Ok(Sensor::SongPlaying)
        } else if id == 38 {
            Ok(Sensor::NumberOfStreamPackets)
        } else if id == 39 {
            Ok(Sensor::RequestedVelocity)
        } else if id == 40 {
            Ok(Sensor::RequestedRadius)
        } else if id == 41 {
            Ok(Sensor::RequestedRightVelocity)
        } else if id == 42 {
            Ok(Sensor::RequestedLeftVelocity)
        } else if id == 43 {
            Ok(Sensor::LeftEncoderCounts)
        } else if id == 44 {
            Ok(Sensor::RightEncoderCounts)
        } else if id == 45 {
            Ok(Sensor::LightBumper)
        } else if id == 46 {
            Ok(Sensor::LightBumpLeftSignal)
        } else if id == 47 {
            Ok(Sensor::LightBumpFrontLeftSignal)
        } else if id == 48 {
            Ok(Sensor::LightBumpCenterLeftSignal)
        } else if id == 49 {
            Ok(Sensor::LightBumpCenterRightSignal)
        } else if id == 50 {
            Ok(Sensor::LightBumpFrontRightSignal)
        } else if id == 51 {
            Ok(Sensor::LightBumpRightSignal)
        } else if id == 54 {
            Ok(Sensor::LeftMotorCurrent)
        } else if id == 55 {
            Ok(Sensor::RightMotorCurrent)
        } else if id == 56 {
            Ok(Sensor::MainBrushMotorCurrent)
        } else if id == 57 {
            Ok(Sensor::SideBrushMotorCurrent)
        } else if id == 58 {
            Ok(Sensor::IsMovingForward)
        } else {
            Err(Error::InvalidSensorTypeID(id))
        }
    }
}

impl ChargingState {
    /// The number that the robot reports for this charging state.
    pub fn id(&self) -> (id: u8)
        ensures
            charging_state_with_id(id) == Some(*self),
    {
        match self {
            ChargingState::NotCharging => 0,
            ChargingState::ReconditioningCharging => 1,
            ChargingState::FullCharging => 2,
            ChargingState::TrickleCharging => 3,
            ChargingState::Waiting => 4,
            ChargingState::ChargingFaultCondition => 5,
        }
    }

    /// The charging state with the number `id`.
    pub fn try_from_primitive(id: u8) -> (state: Result<ChargingState, Error>)
        ensures
            state == (match charging_state_with_id(id) {
                Some(found) => Ok::<ChargingState, Error>(found),
                None => Err::<ChargingState, Error>(Error::InvalidBatteryState(id)),
            }),
    {
        if id == 0 {
            Ok(ChargingState::NotCharging)
        } else if id == 1 {
            Ok(ChargingState::ReconditioningCharging)
        } else if id == 2 {
            Ok(ChargingState::FullCharging)
        } else if id == 3 {
            Ok(ChargingState::TrickleCharging)
        } else if id == 4 {
            Ok(ChargingState::Waiting)
        } else if id == 5 {
            Ok(ChargingState::ChargingFaultCondition)
        } else {
            Err(Error::InvalidBatteryState(id))
        }
    }
}

impl OIMode {
    /// The number that the robot reports for this mode.
    pub fn id(&self) -> (id: u8)
        ensures
            oi_mode_with_id(id) == Some(*self),
    {
        match self {
            OIMode::Off => 0,
            OIMode::Passive => 1,
            OIMode::Safe => 2,
            OIMode::Full => 3,
        }
    }

    /// The interface mode with the number `id`.
    pub fn try_from_primitive(id: u8) -> (mode: Result<OIMode, Error>)
        ensures
            mode == (match oi_mode_with_id(id) {
                Some(found) => Ok::<OIMode, Error>(found),
                None => Err::<OIMode, Error>(Error::InvalidOIMode(id)),
            }),
    {
        if id == 0 {
            Ok(OIMode::Off)
        } else if id == 1 {
            Ok(OIMode::Passive)
        } else if id == 2 {
            Ok(OIMode::Safe)
        } else if id == 3 {
            Ok(OIMode::Full)
        } else {
            Err(Error::InvalidOIMode(id))
        }
    }
}

/// Puts two bytes together to an unsigned integer, high byte first.
fn take_u16(high: u8, low: u8) -> (value: u16)
    ensures
        value == be_u16(high, low),
{
    256 * (high as u16) + low as u16
}

/// Puts two bytes together to a signed integer, high byte first.
fn take_i16(high: u8, low: u8) -> (value: i16)
    ensures
        value == be_i16(high, low),
{
    let wide: i32 = 256 * (high as i32) + low as i32;
    if wide >= 32768 {
        (wide - 65536) as i16
    } else {
        wide as i16
    }
}

/// Reads one byte as a signed integer.
fn take_i8(byte: u8) -> (value: i8)
    ensures
        value == signed_byte(byte),
{
    if byte >= 128 {
        (byte as i16 - 256) as i8
    } else {
        byte as i8
    }
}

/// Decodes the reading of `sensor` from its bytes.
fn decode(sensor: Sensor, first: u8, second: u8) -> (outcome: Result<SensorData, Error>)
    ensures
        outcome == decode_reading(sensor, first, second),
{
    match sensor {
        Sensor::BumpersAndWheelDrops => Ok(
            SensorData::BumpersAndWheelDrops {
                wheel_drop_left: first & 0x08 == 0,
                wheel_drop_right: first & 0x04 == 0,
                bumper_left: first & 0x02 != 0,
                bumper_right: first & 0x01 != 0,
            },
        ),
        Sensor::Wall => Ok(SensorData::Wall(first & 0x01 != 0)),
        Sensor::CliffLeft => Ok(SensorData::CliffLeft(first & 0x01 != 0)),
        Sensor::CliffFrontLeft => Ok(SensorData::CliffFrontLeft(first & 0x01 != 0)),
        Sensor::CliffFrontRight => Ok(SensorData::CliffFrontRight(first & 0x01 != 0)),
        Sensor::CliffRight => Ok(SensorData::CliffRight(first & 0x01 != 0)),
        Sensor::VirtualWall => Ok(SensorData::VirtualWall(first & 0x01 != 0)),
        Sensor::WheelOvercurrents => Ok(
            SensorData::WheelOvercurrents {
                left_wheel: first & 0x10 != 0,
                right_wheel: first & 0x08 != 0,
                main_brush: first & 0x04 != 0,
                side_brush: first & 0x01 != 0,
            },
        ),
        Sensor::DirtDetect => Ok(SensorData::DirtDetect(first)),
        Sensor::InfraredCharacterOmni => Ok(SensorData::InfraredCharacterOmni(first)),
        Sensor::InfraredCharacterLeft => Ok(SensorData::InfraredCharacterLeft(first)),
        Sensor::InfraredCharacterRight => Ok(SensorData::InfraredCharacterLeft(first)),
        Sensor::Buttons => Ok(
            SensorData::Buttons {
                clock: first & 0x80 != 0,
                schedule: first & 0x40 != 0,
                day: first & 0x20 != 0,
                hour: first & 0x10 != 0,
                minute: first & 0x08 != 0,
                dock: first & 0x04 != 0,
                spot: first & 0x02 != 0,
                clean: first & 0x01 != 0,
            },
        ),
        Sensor::Distance => Ok(SensorData::Distance(take_i16(first, second))),
        Sensor::Angle => Ok(SensorData::Angle(take_i16(first, second))),
        Sensor::ChargingState => match ChargingState::try_from_primitive(first) {
            Ok(state) => Ok(SensorData::ChargingState(state)),
            Err(_) => Err(Error::InvalidBatteryState(first)),
        },
        Sensor::Voltage => Ok(SensorData::Voltage(take_u16(first, second))),
        Sensor::Current => Ok(SensorData::Current(take_i16(first, second))),
        Sensor::BatteryTemperature => Ok(SensorData::BatteryTemperature(take_i8(first))),
        Sensor::BatteryCharge => Ok(SensorData::BatteryCharge(take_u16(first, second))),
        Sensor::BatteryCapacity => Ok(SensorData::BatteryCapacity(take_u16(first, second))),
        Sensor::WallSignal => Ok(SensorData::WallSignal(take_u16(first, second))),
        Sensor::CliffLeftSignal => Ok(SensorData::CliffLeftSignal(take_u16(first, second))),
        Sensor::CliffFrontLeftSignal => Ok(SensorData::CliffFrontLeftSignal(take_u16(first, second))),
        Sensor::CliffFrontRightSignal => Ok(SensorData::CliffFrontRightSignal(take_u16(first, second))),
        Sensor::CliffRightSignal => Ok(SensorData::CliffRightSignal(take_u16(first, second))),
        Sensor::ChargingSourcesAvailable => Ok(
            SensorData::ChargingSourcesAvailable {
                home_base: first & 0x02 != 0,
                internal_charger: first & 0x01 != 0,
            },
        ),
        Sensor::OIMode => match OIMode::try_from_primitive(first) {
            Ok(mode) => Ok(SensorData::OIMode(mode)),
            Err(_) => Err(Error::InvalidOIMode(first)),
        },
        Sensor::SongNumber => Ok(SensorData::SongNumber(first)),
        Sensor::SongPlaying => Ok(SensorData::SongPlaying(first != 0)),
        Sensor::NumberOfStreamPackets => Ok(SensorData::NumberOfStreamPackets(first)),
        Sensor::RequestedVelocity => Ok(SensorData::RequestedVelocity(take_i16(first, second))),
        Sensor::RequestedRadius => Ok(SensorData::RequestedRadius(take_i16(first, second))),
        Sensor::RequestedRightVelocity => Ok(SensorData::RequestedRightVelocity(take_i16(first, second))),
        Sensor::RequestedLeftVelocity => Ok(SensorData::RequestedLeftVelocity(take_i16(first, second))),
        Sensor::LeftEncoderCounts => Ok(SensorData::LeftEncoderCounts(take_u16(first, second))),
        Sensor::RightEncoderCounts => Ok(SensorData::RightEncoderCounts(take_u16(first, second))),
        Sensor::LightBumper => Ok(
            SensorData::LightBumper {
                right: first & 0x20 != 0,
                front_right: first & 0x10 != 0,
                center_right: first & 0x08 != 0,
                center_left: first & 0x04 != 0,
                front_left: first & 0x02 != 0,
                left: first & 0x01 != 0,
            },
        ),
        Sensor::LightBumpLeftSignal => Ok(SensorData::LightBumpCenterLeftSignal(take_u16(first, second))),
        Sensor::LightBumpFrontLeftSignal => Ok(SensorData::LightBumpFrontLeftSignal(take_u16(first, second))),
        Sensor::LightBumpCenterLeftSignal => Ok(SensorData::LightBumpCenterLeftSignal(take_u16(first, second))),
        Sensor::LightBumpCenterRightSignal => Ok(SensorData::LightBumpCenterRightSignal(take_u16(first, second))),
        Sensor::LightBumpFrontRightSignal => Ok(SensorData::LightBumpFrontRightSignal(take_u16(first, second))),
        Sensor::LightBumpRightSignal => Ok(SensorData::LightBumpRightSignal(take_u16(first, second))),
        Sensor::LeftMotorCurrent => Ok(SensorData::LeftMotorCurrent(take_i16(first, second))),
        Sensor::RightMotorCurrent => Ok(SensorData::RightMotorCurrent(take_i16(first, second))),
        Sensor::MainBrushMotorCurrent => Ok(SensorData::MainBrushMotorCurrent(take_i16(first, second))),
        Sensor::SideBrushMotorCurrent => Ok(SensorData::SideBrushMotorCurrent(take_i16(first, second))),
        Sensor::IsMovingForward => Ok(SensorData::IsMovingForward(first != 0)),
    }
}

/// How many bytes a reading of `sensor` takes.
fn width_of(sensor: Sensor) -> (width: usize)
    ensures
        width == reading_width(sensor),
{
    match sensor {
        Sensor::Distance
        | Sensor::Angle
        | Sensor::Voltage
        | Sensor::Current
        | Sensor::BatteryCharge
        | Sensor::BatteryCapacity
        | Sensor::WallSignal
        | Sensor::CliffLeftSignal
        | Sensor::CliffFrontLeftSignal
        | Sensor::CliffFrontRightSignal
        | Sensor::CliffRightSignal
        | Sensor::RequestedVelocity
        | Sensor::RequestedRadius
        | Sensor::RequestedRightVelocity
        | Sensor::RequestedLeftVelocity
        | Sensor::LeftEncoderCounts
        | Sensor::RightEncoderCounts
        | Sensor::LightBumpLeftSignal
        | Sensor::LightBumpFrontLeftSignal
        | Sensor::LightBumpCenterLeftSignal
        | Sensor::LightBumpCenterRightSignal
        | Sensor::LightBumpFrontRightSignal
        | Sensor::LightBumpRightSignal
        | Sensor::LeftMotorCurrent
        | Sensor::RightMotorCurrent
        | Sensor::MainBrushMotorCurrent
        | Sensor::SideBrushMotorCurrent => 2,
        _ => 1,
    }
}

/// Reads one sensor from `payload` at `at`: the reading or the reason why
/// there is none, and the position from which the payload is read on.
pub fn parse_sensor_data(sensor_id: Sensor, payload: &[u8], at: usize) -> (read: (
    Result<SensorData, Error>,
    usize,
))
    ensures
        read.0 == sensor_reading(sensor_id, payload@, at as int).outcome,
        read.1 == sensor_reading(sensor_id, payload@, at as int).next,
        read.1 <= payload@.len(),
        at < payload@.len() ==> at < read.1,
{
    let width = width_of(sensor_id);
    if at > payload.len() || width > payload.len() - at {
        return (Err(Error::UnexpectedEnd), payload.len());
    }
    let first = payload[at];
    let second = if width == 2 {
        payload[at + 1]
    } else {
        0
    };
    (decode(sensor_id, first, second), at + width)
}

/// Reads every sensor in the payload of a packet.
pub fn parse_packet(payload: &[u8]) -> (readings: Vec<Result<SensorData, Error>>)
    ensures
        readings@ == packet_readings(payload@, 0),
{
    let mut readings: Vec<Result<SensorData, Error>> = Vec::new();
    let mut at: usize = 0;
    while at < payload.len()
        invariant
            at <= payload.len(),
            readings@ + packet_readings(payload@, at as int) == packet_readings(payload@, 0),
        decreases payload.len() - at,
    {
        let ghost before = readings@;
        match Sensor::try_from_primitive(payload[at]) {
            Err(error) => {
                readings.push(Err(error));
                assert(readings@ =~= before + packet_readings(payload@, at as int));
                return readings;
            },
            Ok(sensor) => {
                let (outcome, next) = parse_sensor_data(sensor, payload, at + 1);
                readings.push(outcome);
                assert(readings@ + packet_readings(payload@, next as int) =~= before
                    + packet_readings(payload@, at as int));
                at = next;
            },
        }
    }
    assert(readings@ + packet_readings(payload@, at as int) =~= readings@);
    readings
}

/// Adds up `bytes` modulo 256.
fn sum_bytes(bytes: &[u8]) -> (sum: u8)
    ensures
        sum == byte_sum(bytes@),
{
    let mut sum: u8 = 0;
    let mut i: usize = 0;
    assert(bytes@.subrange(0, 0) =~= Seq::<u8>::empty());
    while i < bytes.len()
        invariant
            i <= bytes.len(),
            sum == byte_sum(bytes@.subrange(0, i as int)),
        decreases bytes.len() - i,
    {
        assert(bytes@.subrange(0, i + 1).drop_last() =~= bytes@.subrange(0, i as int));
        sum = ((sum as u16 + bytes[i] as u16) % 256) as u8;
        i = i + 1;
    }
    assert(bytes@.subrange(0, i as int) =~= bytes@);
    sum
}

/// Takes a packet apart. `length` is the length byte that followed the start
/// byte, and `body` the `length + 1` bytes behind it, the last of which is
/// the checksum. A packet whose checksum does not hold is dropped.
pub fn read_packet(length: u8, body: &[u8]) -> (contents: Option<Vec<Result<SensorData, Error>>>)
    ensures
        match packet_contents(length, body@) {
            Some(readings) => contents matches Some(got) && got@ == readings,
            None => contents is None,
        },
{
    if body.len() == 0 {
        return None;
    }
    let sum = sum_bytes(body);
    if (sum as u16 + PACKET_START as u16 + length as u16) % 256 != 0 {
        return None;
    }
    Some(parse_packet(vstd::slice::slice_subrange(body, 0, body.len() - 1)))
}

/// A 16-bit number read as a signed one, as the robot reads it.
pub open spec fn as_signed(value: u16) -> i16 {
    if value >= 32768 {
        (value - 65536) as i16
    } else {
        value as i16
    }
}

/// The negative of `value`; the least value, which has none, stays itself.
pub open spec fn negated(value: i16) -> i16 {
    if value == -32768 {
        value
    } else {
        (-value) as i16
    }
}

/// The velocity and the radius that the robot is given for `command`: a
/// radius of 32767 stands for straight ahead, 1 and -1 for a turn on the
/// spot to the left and to the right, and the radius of an arc is positive to
/// the left and negative to the right.
pub open spec fn drive_pair(command: DriveCommand) -> (i16, i16) {
    match command {
        DriveCommand::Straight(speed) => (speed, 32767i16),
        DriveCommand::Turn(TurnDirection::Left(speed)) => (as_signed(speed), 1i16),
        DriveCommand::Turn(TurnDirection::Right(speed)) => (as_signed(speed), -1i16),
        DriveCommand::Arc { radius: TurnDirection::Left(radius), speed } => (
            speed,
            as_signed(radius),
        ),
        DriveCommand::Arc { radius: TurnDirection::Right(radius), speed } => (
            speed,
            negated(as_signed(radius)),
        ),
        DriveCommand::Stop => (0i16, 0i16),
    }
}

/// The bytes that make the robot drive as `command` says: the robot is put
/// under control first, then given velocity and radius, high bytes first.
pub open spec fn drive_bytes(command: DriveCommand) -> Seq<u8> {
    seq![
        131u8,
        137u8,
        high_byte(drive_pair(command).0),
        low_byte(drive_pair(command).0),
        high_byte(drive_pair(command).1),
        low_byte(drive_pair(command).1),
    ]
}

/// The bytes that set the velocity of each wheel: the right wheel comes
/// first.
pub open spec fn drive_direct_bytes(left: i16, right: i16) -> Seq<u8> {
    seq![131u8, 145u8, high_byte(right), low_byte(right), high_byte(left), low_byte(left)]
}

/// The lights as one byte: a bit each for debris, spot, dock and check
/// robot, from the lowest up.
pub open spec fn led_bits(state: LedState) -> u8 {
    ((if state.check_robot { 8int } else { 0int }) + (if state.dock { 4int } else { 0int }) + (
    if state.spot { 2int } else { 0int }) + (if state.debris { 1int } else { 0int })) as u8
}

/// The bytes that set the lights.
pub open spec fn led_bytes(state: LedState) -> Seq<u8> {
    seq![131u8, 139u8, led_bits(state), state.power_color, state.power_intensity]
}

/// What the display shows at place `i`: the character of `text` there cut
/// down to a byte, or a space behind the end of the text.
pub open spec fn display_byte(text: Seq<char>, i: int) -> u8 {
    if i < text.len() {
        text[i] as u8
    } else {
        32
    }
}

/// The bytes that put the first four characters of `text` on the display.
pub open spec fn display_bytes(text: Seq<char>) -> Seq<u8> {
    seq![
        131u8,
        164u8,
        display_byte(text, 0),
        display_byte(text, 1),
        display_byte(text, 2),
        display_byte(text, 3),
    ]
}

/// The numbers of `sensors`, in the same order.
pub open spec fn sensor_ids(sensors: Seq<Sensor>) -> Seq<u8> {
    sensors.map_values(|sensor: Sensor| sensor_id(sensor))
}

/// The bytes that ask for `sensors` with the command `opcode`: the robot is
/// put under control, then told how many sensors follow (modulo 256), then
/// their numbers.
pub open spec fn sensor_list_bytes(opcode: u8, sensors: Seq<Sensor>) -> Seq<u8> {
    seq![131u8, opcode, (sensors.len() % 256) as u8] + sensor_ids(sensors)
}

/// A number that is not negative as it is, and 0 for a negative one.
pub open spec fn non_negative(value: i16) -> u16 {
    if value < 0 {
        0
    } else {
        value as u16
    }
}

/// The two bytes of `value`, high byte first.
fn split_i16(value: i16) -> (bytes: (u8, u8))
    ensures
        bytes.0 == high_byte(value),
        bytes.1 == low_byte(value),
{
    let wide: i32 = if value < 0 {
        value as i32 + 65536
    } else {
        value as i32
    };
    ((wide / 256) as u8, (wide % 256) as u8)
}

/// Reads a 16-bit number as a signed one.
fn signed(value: u16) -> (read: i16)
    ensures
        read == as_signed(value),
{
    if value >= 32768 {
        (value as i32 - 65536) as i16
    } else {
        value as i16
    }
}

/// The byte that starts the open interface.
pub fn start() -> (bytes: Vec<u8>)
    ensures
        bytes@ == seq![128u8],
{
    vec![128]
}

/// The byte that resets the robot.
pub fn reset() -> (bytes: Vec<u8>)
    ensures
        bytes@ == seq![7u8],
{
    vec![7]
}

/// The byte that stops the open interface.
pub fn stop() -> (bytes: Vec<u8>)
    ensures
        bytes@ == seq![173u8],
{
    vec![173]
}

/// The byte that puts the robot under the control of the interface.
pub fn take_control() -> (bytes: Vec<u8>)
    ensures
        bytes@ == seq![131u8],
{
    vec![131]
}

/// The byte that starts a cleaning run.
pub fn clean() -> (bytes: Vec<u8>)
    ensures
        bytes@ == seq![135u8],
{
    vec![135]
}

/// The byte that starts a spot cleaning.
pub fn spot() -> (bytes: Vec<u8>)
    ensures
        bytes@ == seq![134u8],
{
    vec![134]
}

/// The byte that sends the robot to its dock.
pub fn seek_dock() -> (bytes: Vec<u8>)
    ensures
        bytes@ == seq![143u8],
{
    vec![143]
}

/// The bytes that make the robot drive as `command` says.
pub fn drive(command: DriveCommand) -> (bytes: Vec<u8>)
    ensures
        bytes@ == drive_bytes(command),
{
    let (velocity, radius): (i16, i16) = match command {
        DriveCommand::Straight(speed) => (speed, 32767),
        DriveCommand::Turn(TurnDirection::Left(speed)) => (signed(speed), 1),
        DriveCommand::Turn(TurnDirection::Right(speed)) => (signed(speed), -1),
        DriveCommand::Arc { radius: TurnDirection::Left(radius), speed } => (speed, signed(radius)),
        DriveCommand::Arc { radius: TurnDirection::Right(radius), speed } => {
            let left = signed(radius);
            if left == -32768 {
                (speed, left)
            } else {
                (speed, -left)
            }
        },
        DriveCommand::Stop => (0, 0),
    };
    let (velocity_high, velocity_low) = split_i16(velocity);
    let (radius_high, radius_low) = split_i16(radius);
    let bytes = vec![131, 137, velocity_high, velocity_low, radius_high, radius_low];
    assert(bytes@ =~= drive_bytes(command));
    bytes
}

/// The bytes that set the velocity of each wheel.
pub fn drive_direct(left_wheel_velocity: i16, right_wheel_velocity: i16) -> (bytes: Vec<u8>)
    ensures
        bytes@ == drive_direct_bytes(left_wheel_velocity, right_wheel_velocity),
{
    let (right_high, right_low) = split_i16(right_wheel_velocity);
    let (left_high, left_low) = split_i16(left_wheel_velocity);
    let bytes = vec![131, 145, right_high, right_low, left_high, left_low];
    assert(bytes@ =~= drive_direct_bytes(left_wheel_velocity, right_wheel_velocity));
    bytes
}

/// The bytes that set the lights.
pub fn set_leds(led_state: LedState) -> (bytes: Vec<u8>)
    ensures
        bytes@ == led_bytes(led_state),
{
    let mut leds: u8 = 0;
    if led_state.check_robot {
        leds = leds + 8;
    }
    if led_state.dock {
        leds = leds + 4;
    }
    if led_state.spot {
        leds = leds + 2;
    }
    if led_state.debris {
        leds = leds + 1;
    }
    let bytes = vec![131, 139, leds, led_state.power_color, led_state.power_intensity];
    assert(bytes@ =~= led_bytes(led_state));
    bytes
}

/// The bytes that put `text` on the display. The display has four places:
/// only the first four characters are shown, and a shorter text is filled up
/// with spaces.
pub fn set_seven_segment(text: &str) -> (bytes: Vec<u8>)
    ensures
        bytes@ == display_bytes(text@),
{
    let length = text.unicode_len();
    let mut bytes: Vec<u8> = vec![131, 164];
    let mut i: usize = 0;
    while i < 4
        invariant
            i <= 4,
            length == text@.len(),
            bytes@.len() == 2 + i,
            bytes@[0] == 131u8,
            bytes@[1] == 164u8,
            forall|j: int| 0 <= j < i ==> bytes@[2 + j] == display_byte(text@, j),
        decreases 4 - i,
    {
        if i < length {
            bytes.push(text.get_char(i) as u8);
        } else {
            bytes.push(32);
        }
        i = i + 1;
    }
    assert(bytes@ =~= display_bytes(text@));
    bytes
}

/// Appends to `bytes` how many `sensors` there are and their numbers.
fn push_sensors(bytes: &mut Vec<u8>, sensors: &[Sensor])
    ensures
        final(bytes)@ == old(bytes)@ + seq![(sensors@.len() % 256) as u8] + sensor_ids(sensors@),
{
    bytes.push((sensors.len() % 256) as u8);
    let ghost start = bytes@;
    let mut i: usize = 0;
    while i < sensors.len()
        invariant
            i <= sensors.len(),
            bytes@ == start + sensor_ids(sensors@).subrange(0, i as int),
        decreases sensors.len() - i,
    {
        bytes.push(sensors[i].id());
        i = i + 1;
        assert(bytes@ =~= start + sensor_ids(sensors@).subrange(0, i as int));
    }
    assert(sensor_ids(sensors@).subrange(0, i as int) =~= sensor_ids(sensors@));
    assert(bytes@ =~= old(bytes)@ + seq![(sensors@.len() % 256) as u8] + sensor_ids(sensors@));
}

/// The bytes that ask once for the reading of one sensor.
pub fn query(sensor: Sensor) -> (bytes: Vec<u8>)
    ensures
        bytes@ == seq![131u8, 142u8, sensor_id(sensor)],
{
    vec![131, 142, sensor.id()]
}

/// The bytes that ask once for the readings of `sensors`.
pub fn query_list(sensors: &[Sensor]) -> (bytes: Vec<u8>)
    ensures
        bytes@ == sensor_list_bytes(142, sensors@),
{
    let mut bytes: Vec<u8> = vec![131, 142];
    push_sensors(&mut bytes, sensors);
    assert(bytes@ =~= sensor_list_bytes(142, sensors@));
    bytes
}

/// The bytes that make the robot send the readings of `sensors` again and
/// again.
pub fn start_stream(sensors: &[Sensor]) -> (bytes: Vec<u8>)
    ensures
        bytes@ == sensor_list_bytes(148, sensors@),
{
    let mut bytes: Vec<u8> = vec![131, 148];
    push_sensors(&mut bytes, sensors);
    assert(bytes@ =~= sensor_list_bytes(148, sensors@));
    bytes
}

/// The bytes that pause the stream of readings (`true`) or resume it
/// (`false`).
pub fn pause_stream(paused: bool) -> (bytes: Vec<u8>)
    ensures
        bytes@ == seq![150u8, if paused { 0u8 } else { 1u8 }],
{
    let flag: u8 = if paused {
        0
    } else {
        1
    };
    vec![150, flag]
}

/// A speed or radius as the robot takes it with a direction: a negative
/// number counts as 0.
pub fn clamp_negative(value: i16) -> (clamped: u16)
    ensures
        clamped == non_negative(value),
{
    if value < 0 {
        0
    } else {
        value as u16
    }
}

} // verus!
