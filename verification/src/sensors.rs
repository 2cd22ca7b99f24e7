//! Which sensors a query asks for.

use vstd::prelude::*;
use crate::roomba_interface::Sensor;

verus! {

/// A request for readings: one flag for each sensor.
#[derive(Debug, Clone, Copy, PartialEq, Eq)]
pub struct SensorQuery {
    pub bumpers_and_wheel_drops: bool,
    pub wall: bool,
    pub cliff_left: bool,
    pub cliff_front_left: bool,
    pub cliff_front_right: bool,
    pub cliff_right: bool,
    pub virtual_wall: bool,
    pub wheel_overcurrents: bool,
    pub dirt_detect: bool,
    pub infrared_character_omni: bool,
    pub infrared_character_left: bool,
    pub infrared_character_right: bool,
    pub buttons: bool,
    pub distance: bool,
    pub angle: bool,
    pub charging_state: bool,
    pub voltage: bool,
    pub current: bool,
    pub battery_temperature: bool,
    pub battery_charge: bool,
    pub battery_capacity: bool,
    pub wall_signal: bool,
    pub cliff_left_signal: bool,
    pub cliff_front_left_signal: bool,
    pub cliff_front_right_signal: bool,
    pub cliff_right_signal: bool,
    pub charging_sources_available: bool,
    pub oi_mode: bool,
    pub song_number: bool,
    pub song_playing: bool,
    pub number_of_stream_packets: bool,
    pub requested_velocity: bool,
    pub requested_radius: bool,
    pub requested_right_velocity: bool,
    pub requested_left_velocity: bool,
    pub left_encoder_counts: bool,
    pub right_encoder_counts: bool,
    pub light_bumper: bool,
    pub light_bump_left_signal: bool,
    pub light_bump_front_left_signal: bool,
    pub light_bump_center_left_signal: bool,
    pub light_bump_center_right_signal: bool,
    pub light_bump_front_right_signal: bool,
    pub light_bump_right_signal: bool,
    pub left_motor_current: bool,
    pub right_motor_current: bool,
    pub main_brush_motor_current: bool,
    pub side_brush_motor_current: bool,
    pub is_moving_forward: bool,
}

/// How many sensors there are.
pub const SENSOR_COUNT: usize = 49;

/// The place of `sensor` in the order in which readings are asked for.
pub open spec fn sensor_rank(sensor: Sensor) -> int {
    match sensor {
        Sensor::BumpersAndWheelDrops => 0,
        Sensor::Wall => 1,
        Sensor::CliffLeft => 2,
        Sensor::CliffFrontLeft => 3,
        Sensor::CliffFrontRight => 4,
        Sensor::CliffRight => 5,
        Sensor::VirtualWall => 6,
        Sensor::WheelOvercurrents => 7,
        Sensor::DirtDetect => 8,
        Sensor::InfraredCharacterOmni => 9,
        Sensor::InfraredCharacterLeft => 10,
        Sensor::InfraredCharacterRight => 11,
        Sensor::Buttons => 12,
        Sensor::Distance => 13,
        Sensor::Angle => 14,
        Sensor::ChargingState => 15,
        Sensor::Voltage => 16,
        Sensor::Current => 17,
        Sensor::BatteryTemperature => 18,
        Sensor::BatteryCharge => 19,
        Sensor::BatteryCapacity => 20,
        Sensor::WallSignal => 21,
        Sensor::CliffLeftSignal => 22,
        Sensor::CliffFrontLeftSignal => 23,
        Sensor::CliffFrontRightSignal => 24,
        Sensor::CliffRightSignal => 25,
        Sensor::ChargingSourcesAvailable => 26,
        Sensor::OIMode => 27,
        Sensor::SongNumber => 28,
        Sensor::SongPlaying => 29,
        Sensor::NumberOfStreamPackets => 30,
        Sensor::RequestedVelocity => 31,
        Sensor::RequestedRadius => 32,
        Sensor::RequestedRightVelocity => 33,
        Sensor::RequestedLeftVelocity => 34,
        Sensor::LeftEncoderCounts => 35,
        Sensor::RightEncoderCounts => 36,
        Sensor::LightBumper => 37,
        Sensor::LightBumpLeftSignal => 38,
        Sensor::LightBumpFrontLeftSignal => 39,
        Sensor::LightBumpCenterLeftSignal => 40,
        Sensor::LightBumpCenterRightSignal => 41,
        Sensor::LightBumpFrontRightSignal => 42,
        Sensor::LightBumpRightSignal => 43,
        Sensor::LeftMotorCurrent => 44,
        Sensor::RightMotorCurrent => 45,
        Sensor::MainBrushMotorCurrent => 46,
        Sensor::SideBrushMotorCurrent => 47,
        Sensor::IsMovingForward => 48,
    }
}

/// Whether `query` asks for `sensor`.
pub open spec fn is_requested(query: SensorQuery, sensor: Sensor) -> bool {
    match sensor {
        Sensor::BumpersAndWheelDrops => query.bumpers_and_wheel_drops,
        Sensor::Wall => query.wall,
        Sensor::CliffLeft => query.cliff_left,
        Sensor::CliffFrontLeft => query.cliff_front_left,
        Sensor::CliffFrontRight => query.cliff_front_right,
        Sensor::CliffRight => query.cliff_right,
        Sensor::VirtualWall => query.virtual_wall,
        Sensor::WheelOvercurrents => query.wheel_overcurrents,
        Sensor::DirtDetect => query.dirt_detect,
        Sensor::InfraredCharacterOmni => query.infrared_character_omni,
        Sensor::InfraredCharacterLeft => query.infrared_character_left,
        Sensor::InfraredCharacterRight => query.infrared_character_right,
        Sensor::Buttons => query.buttons,
        Sensor::Distance => query.distance,
        Sensor::Angle => query.angle,
        Sensor::ChargingState => query.charging_state,
        Sensor::Voltage => query.voltage,
        Sensor::Current => query.current,
        Sensor::BatteryTemperature => query.battery_temperature,
        Sensor::BatteryCharge => query.battery_charge,
        Sensor::BatteryCapacity => query.battery_capacity,
        Sensor::WallSignal => query.wall_signal,
        Sensor::CliffLeftSignal => query.cliff_left_signal,
        Sensor::CliffFrontLeftSignal => query.cliff_front_left_signal,
        Sensor::CliffFrontRightSignal => query.cliff_front_right_signal,
        Sensor::CliffRightSignal => query.cliff_right_signal,
        Sensor::ChargingSourcesAvailable => query.charging_sources_available,
        Sensor::OIMode => query.oi_mode,
        Sensor::SongNumber => query.song_number,
        Sensor::SongPlaying => query.song_playing,
        Sensor::NumberOfStreamPackets => query.number_of_stream_packets,
        Sensor::RequestedVelocity => query.requested_velocity,
        Sensor::RequestedRadius => query.requested_radius,
        Sensor::RequestedRightVelocity => query.requested_right_velocity,
        Sensor::RequestedLeftVelocity => query.requested_left_velocity,
        Sensor::LeftEncoderCounts => query.left_encoder_counts,
        Sensor::RightEncoderCounts => query.right_encoder_counts,
        Sensor::LightBumper => query.light_bumper,
        Sensor::LightBumpLeftSignal => query.light_bump_left_signal,
        Sensor::LightBumpFrontLeftSignal => query.light_bump_front_left_signal,
        Sensor::LightBumpCenterLeftSignal => query.light_bump_center_left_signal,
        Sensor::LightBumpCenterRightSignal => query.light_bump_center_right_signal,
        Sensor::LightBumpFrontRightSignal => query.light_bump_front_right_signal,
        Sensor::LightBumpRightSignal => query.light_bump_right_signal,
        Sensor::LeftMotorCurrent => query.left_motor_current,
        Sensor::RightMotorCurrent => query.right_motor_current,
        Sensor::MainBrushMotorCurrent => query.main_brush_motor_current,
        Sensor::SideBrushMotorCurrent => query.side_brush_motor_current,
        Sensor::IsMovingForward => query.is_moving_forward,
    }
}

/// Whether `list` names exactly the sensors that `query` asks for, each
/// once, in the order of their ranks.
pub open spec fn is_query_list(query: SensorQuery, list: Seq<Sensor>) -> bool {
    &&& forall|sensor: Sensor| #[trigger] list.contains(sensor) <==> is_requested(query, sensor)
    &&& forall|i: int, j: int|
        0 <= i < j < list.len() ==> sensor_rank(#[trigger] list[i]) < sensor_rank(
            #[trigger] list[j],
        )
}

/// The sensor at place `rank`.
fn sensor_at(rank: usize) -> (sensor: Sensor)
    requires
        rank < SENSOR_COUNT,
    ensures
        sensor_rank(sensor) == rank,
{
    if rank == 0 {
        Sensor::BumpersAndWheelDrops
    } else if rank == 1 {
        Sensor::Wall
    } else if rank == 2 {
        Sensor::CliffLeft
    } else if rank == 3 {
        Sensor::CliffFrontLeft
    } else if rank == 4 {
        Sensor::CliffFrontRight
    } else if rank == 5 {
        Sensor::CliffRight
    } else if rank == 6 {
        Sensor::VirtualWall
    } else if rank == 7 {
        Sensor::WheelOvercurrents
    } else if rank == 8 {
        Sensor::DirtDetect
    } else if rank == 9 {
        Sensor::InfraredCharacterOmni
    } else if rank == 10 {
        Sensor::InfraredCharacterLeft
    } else if rank == 11 {
        Sensor::InfraredCharacterRight
    } else if rank == 12 {
        Sensor::Buttons
    } else if rank == 13 {
        Sensor::Distance
    } else if rank == 14 {
        Sensor::Angle
    } else if rank == 15 {
        Sensor::ChargingState
    } else if rank == 16 {
        Sensor::Voltage
    } else if rank == 17 {
        Sensor::Current
    } else if rank == 18 {
        Sensor::BatteryTemperature
    } else if rank == 19 {
        Sensor::BatteryCharge
    } else if rank == 20 {
        Sensor::BatteryCapacity
    } else if rank == 21 {
        Sensor::WallSignal
    } else if rank == 22 {
        Sensor::CliffLeftSignal
    } else if rank == 23 {
        Sensor::CliffFrontLeftSignal
    } else if rank == 24 {
        Sensor::CliffFrontRightSignal
    } else if rank == 25 {
        Sensor::CliffRightSignal
    } else if rank == 26 {
        Sensor::ChargingSourcesAvailable
    } else if rank == 27 {
        Sensor::OIMode
    } else if rank == 28 {
        Sensor::SongNumber
    } else if rank == 29 {
        Sensor::SongPlaying
    } else if rank == 30 {
        Sensor::NumberOfStreamPackets
    } else if rank == 31 {
        Sensor::RequestedVelocity
    } else if rank == 32 {
        Sensor::RequestedRadius
    } else if rank == 33 {
        Sensor::RequestedRightVelocity
    } else if rank == 34 {
        Sensor::RequestedLeftVelocity
    } else if rank == 35 {
        Sensor::LeftEncoderCounts
    } else if rank == 36 {
        Sensor::RightEncoderCounts
    } else if rank == 37 {
        Sensor::LightBumper
    } else if rank == 38 {
        Sensor::LightBumpLeftSignal
    } else if rank == 39 {
        Sensor::LightBumpFrontLeftSignal
    } else if rank == 40 {
        Sensor::LightBumpCenterLeftSignal
    } else if rank == 41 {
        Sensor::LightBumpCenterRightSignal
    } else if rank == 42 {
        Sensor::LightBumpFrontRightSignal
    } else if rank == 43 {
        Sensor::LightBumpRightSignal
    } else if rank == 44 {
        Sensor::LeftMotorCurrent
    } else if rank == 45 {
        Sensor::RightMotorCurrent
    } else if rank == 46 {
        Sensor::MainBrushMotorCurrent
    } else if rank == 47 {
        Sensor::SideBrushMotorCurrent
    } else {
        Sensor::IsMovingForward
    }
}

/// Whether `message` asks for `sensor`.
fn asks_for(message: &SensorQuery, sensor: Sensor) -> (asked: bool)
    ensures
        asked == is_requested(*message, sensor),
{
    match sensor {
        Sensor::BumpersAndWheelDrops => message.bumpers_and_wheel_drops,
        Sensor::Wall => message.wall,
        Sensor::CliffLeft => message.cliff_left,
        Sensor::CliffFrontLeft => message.cliff_front_left,
        Sensor::CliffFrontRight => message.cliff_front_right,
        Sensor::CliffRight => message.cliff_right,
        Sensor::VirtualWall => message.virtual_wall,
        Sensor::WheelOvercurrents => message.wheel_overcurrents,
        Sensor::DirtDetect => message.dirt_detect,
        Sensor::InfraredCharacterOmni => message.infrared_character_omni,
        Sensor::InfraredCharacterLeft => message.infrared_character_left,
        Sensor::InfraredCharacterRight => message.infrared_character_right,
        Sensor::Buttons => message.buttons,
        Sensor::Distance => message.distance,
        Sensor::Angle => message.angle,
        Sensor::ChargingState => message.charging_state,
        Sensor::Voltage => message.voltage,
        Sensor::Current => message.current,
        Sensor::BatteryTemperature => message.battery_temperature,
        Sensor::BatteryCharge => message.battery_charge,
        Sensor::BatteryCapacity => message.battery_capacity,
        Sensor::WallSignal => message.wall_signal,
        Sensor::CliffLeftSignal => message.cliff_left_signal,
        Sensor::CliffFrontLeftSignal => message.cliff_front_left_signal,
        Sensor::CliffFrontRightSignal => message.cliff_front_right_signal,
        Sensor::CliffRightSignal => message.cliff_right_signal,
        Sensor::ChargingSourcesAvailable => message.charging_sources_available,
        Sensor::OIMode => message.oi_mode,
        Sensor::SongNumber => message.song_number,
        Sensor::SongPlaying => message.song_playing,
        Sensor::NumberOfStreamPackets => message.number_of_stream_packets,
        Sensor::RequestedVelocity => message.requested_velocity,
        Sensor::RequestedRadius => message.requested_radius,
        Sensor::RequestedRightVelocity => message.requested_right_velocity,
        Sensor::RequestedLeftVelocity => message.requested_left_velocity,
        Sensor::LeftEncoderCounts => message.left_encoder_counts,
        Sensor::RightEncoderCounts => message.right_encoder_counts,
        Sensor::LightBumper => message.light_bumper,
        Sensor::LightBumpLeftSignal => message.light_bump_left_signal,
        Sensor::LightBumpFrontLeftSignal => message.light_bump_front_left_signal,
        Sensor::LightBumpCenterLeftSignal => message.light_bump_center_left_signal,
        Sensor::LightBumpCenterRightSignal => message.light_bump_center_right_signal,
        Sensor::LightBumpFrontRightSignal => message.light_bump_front_right_signal,
        Sensor::LightBumpRightSignal => message.light_bump_right_signal,
        Sensor::LeftMotorCurrent => message.left_motor_current,
        Sensor::RightMotorCurrent => message.right_motor_current,
        Sensor::MainBrushMotorCurrent => message.main_brush_motor_current,
        Sensor::SideBrushMotorCurrent => message.side_brush_motor_current,
        Sensor::IsMovingForward => message.is_moving_forward,
    }
}

/// The sensors that `message` asks for, each once, in the order of their
/// ranks.
pub fn query_list_from_ros_message(message: &SensorQuery) -> (sensor_list: Vec<Sensor>)
    ensures
        is_query_list(*message, sensor_list@),
{
    let mut sensor_list: Vec<Sensor> = Vec::new();
    let mut rank: usize = 0;
    while rank < SENSOR_COUNT
        invariant
            rank <= SENSOR_COUNT,
            forall|sensor: Sensor| #[trigger]
                sensor_list@.contains(sensor) <==> is_requested(*message, sensor) && sensor_rank(
                    sensor,
                ) < rank,
            forall|i: int, j: int|
                0 <= i < j < sensor_list@.len() ==> sensor_rank(#[trigger] sensor_list@[i])
                    < sensor_rank(#[trigger] sensor_list@[j]),
            forall|i: int|
                0 <= i < sensor_list@.len() ==> sensor_rank(#[trigger] sensor_list@[i]) < rank,
        decreases SENSOR_COUNT - rank,
    {
        let sensor = sensor_at(rank);
        let ghost before = sensor_list@;
        if asks_for(message, sensor) {
            sensor_list.push(sensor);
            assert forall|other: Sensor| #[trigger]
                sensor_list@.contains(other) <==> is_requested(*message, other) && sensor_rank(
                    other,
                ) < rank + 1 by {
                if before.contains(other) {
                    let k = choose|k: int| 0 <= k < before.len() && before[k] == other;
                    assert(sensor_list@[k] == other);
                }
                if other == sensor {
                    assert(sensor_list@[before.len() as int] == other);
                }
                if sensor_list@.contains(other) {
                    let k = choose|k: int| 0 <= k < sensor_list@.len() && sensor_list@[k] == other;
                    if k < before.len() {
                        assert(before[k] == other);
                    }
                }
                lemma_rank_names_sensor(other, sensor);
            }
        } else {
            assert forall|other: Sensor| #[trigger]
                sensor_list@.contains(other) <==> is_requested(*message, other) && sensor_rank(
                    other,
                ) < rank + 1 by {
                lemma_rank_names_sensor(other, sensor);
            }
        }
        rank = rank + 1;
    }
    assert forall|sensor: Sensor| sensor_rank(sensor) < SENSOR_COUNT by {
        lemma_rank_names_sensor(sensor, sensor);
    }
    sensor_list
}

/// Two sensors of the same rank are the same sensor, and every rank is
/// below the number of sensors.
pub proof fn lemma_rank_names_sensor(first: Sensor, second: Sensor)
    ensures
        sensor_rank(first) == sensor_rank(second) ==> first == second,
        0 <= sensor_rank(first) < SENSOR_COUNT,
{
}

} // verus!
