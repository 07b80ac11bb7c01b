//! Decoding of one telemetry datagram into a structured record.
//!
//! The wire schema is a single fixed layout: every field lives at a fixed
//! byte offset, and the minimum datagram length is the highest offset plus
//! that field's width.  A buffer shorter than that minimum is rejected as
//! a whole — no partial records are ever produced.
//!
//! The 32-bit float fields of the schema are carried as their raw
//! IEEE-754 bit patterns (`u32`), bit-identical to the wire.  Consumers
//! that need the numeric value reinterpret the bits; the decoder itself
//! never does float arithmetic, so decoding stays exact and deterministic.

use vstd::prelude::*;

use crate::bytes::{bool_at, f32_bits_at, i8_at, u16_at, u32_at, u8_at};
use crate::bytes::{read_bool, read_i8, read_u16, read_u32, read_u8};

verus! {

/// The minimum datagram length: the highest field offset used by the
/// schema (310) plus that field's width (1 byte).
pub const MIN_PACKET_LEN: usize = 311;

/// Why a datagram could not be decoded.
#[derive(Clone, Copy, Debug, PartialEq, Eq, Structural)]
pub enum DecodeError {
    /// The buffer is shorter than the minimum the schema requires;
    /// the payload is that minimum length.
    Truncated(usize),
}

/// Static identity of the car, fixed for the length of a race.
#[derive(Clone, Copy, Debug, PartialEq, Eq, Structural)]
pub struct General {
    /// Drivetrain layout: 0 = FWD, 1 = RWD, 2 = AWD.
    pub drive_train: u8,
    /// Number of cylinders in the engine.
    pub cylinders: u8,
    /// Between 100 (slowest car) and 999 (fastest car) inclusive.
    pub performance_index: u8,
    /// Between 0 (worst cars) and 7 (best cars) inclusive.
    pub class: u8,
    /// Unique ID of the car make/model.
    pub ordinal: u8,
}

/// Engine speeds, as raw 32-bit float bit patterns.
#[derive(Clone, Copy, Debug, PartialEq, Eq, Structural)]
pub struct Engine {
    pub engine_max_rpm: u32,
    pub engine_idle_rpm: u32,
    pub current_engine_rpm: u32,
}

/// Per-wheel dynamics, ordered front-left, front-right, rear-left,
/// rear-right throughout.  Float-valued channels are raw bit patterns.
#[derive(Clone, Copy, Debug, PartialEq, Eq, Structural)]
pub struct Wheels {
    /// Wheel rotation speed in radians/sec.
    pub wheel_rotation_speed_front_left: u32,
    pub wheel_rotation_speed_front_right: u32,
    pub wheel_rotation_speed_rear_left: u32,
    pub wheel_rotation_speed_rear_right: u32,
    /// True when the wheel is on a rumble strip.
    pub wheel_on_rumble_strip_front_left: bool,
    pub wheel_on_rumble_strip_front_right: bool,
    pub wheel_on_rumble_strip_rear_left: bool,
    pub wheel_on_rumble_strip_rear_right: bool,
    /// From 0 to 1, where 1 is the deepest puddle.
    pub wheel_in_puddle_depth_front_left: u32,
    pub wheel_in_puddle_depth_front_right: u32,
    pub wheel_in_puddle_depth_rear_left: u32,
    pub wheel_in_puddle_depth_rear_right: u32,
    pub tires: Tires,
}

/// Tire adhesion and temperature channels, raw bit patterns.
/// The normalized slip channels signal loss of grip past magnitude 1.
#[derive(Clone, Copy, Debug, PartialEq, Eq, Structural)]
pub struct Tires {
    pub tire_slip_rotation_front_left: u32,
    pub tire_slip_rotation_front_right: u32,
    pub tire_slip_rotation_rear_left: u32,
    pub tire_slip_rotation_rear_right: u32,
    pub tire_slip_angle_front_left: u32,
    pub tire_slip_angle_front_right: u32,
    pub tire_slip_angle_rear_left: u32,
    pub tire_slip_angle_rear_right: u32,
    pub tire_combined_slip_front_left: u32,
    pub tire_combined_slip_front_right: u32,
    pub tire_combined_slip_rear_left: u32,
    pub tire_combined_slip_rear_right: u32,
    /// Temperatures are in Fahrenheit.
    pub tire_temp_front_left: u32,
    pub tire_temp_front_right: u32,
    pub tire_temp_rear_left: u32,
    pub tire_temp_rear_right: u32,
}

/// Suspension travel, raw bit patterns: normalized (0 = max stretch,
/// 1 = max compression) and in meters.
#[derive(Clone, Copy, Debug, PartialEq, Eq, Structural)]
pub struct Suspension {
    pub normalized_suspension_travel_front_left: u32,
    pub normalized_suspension_travel_front_right: u32,
    pub normalized_suspension_travel_rear_left: u32,
    pub normalized_suspension_travel_rear_right: u32,
    pub suspension_travel_meters_front_left: u32,
    pub suspension_travel_meters_front_right: u32,
    pub suspension_travel_meters_rear_left: u32,
    pub suspension_travel_meters_rear_right: u32,
}

/// Motion in the car's local frame (x = right, y = up, z = forward) and
/// orientation, raw bit patterns.
#[derive(Clone, Copy, Debug, PartialEq, Eq, Structural)]
pub struct Spatial {
    pub acceleration_x: u32,
    pub acceleration_y: u32,
    pub acceleration_z: u32,
    pub velocity_x: u32,
    pub velocity_y: u32,
    pub velocity_z: u32,
    /// x = pitch, y = yaw, z = roll.
    pub angular_velocity_x: u32,
    pub angular_velocity_y: u32,
    pub angular_velocity_z: u32,
    pub yaw: u32,
    pub pitch: u32,
    pub roll: u32,
}

/// Dashboard readouts; float channels are raw bit patterns.
#[derive(Clone, Copy, Debug, PartialEq, Eq, Structural)]
pub struct Dash {
    /// World position in meters.
    pub position_x: u32,
    pub position_y: u32,
    pub position_z: u32,
    /// Meters/second.
    pub speed: u32,
    /// Watts.
    pub power: u32,
    /// Newton meters.
    pub torque: u32,
    pub boost: u32,
    pub fuel: u32,
    pub distance_traveled: u32,
    pub lap: Lap,
    pub acceleration: u8,
    pub brake: u8,
    pub clutch: u8,
    pub handbrake: u8,
    pub gear: u8,
    pub steer: i8,
    pub normalized_driving_line: u8,
    pub normalized_ai_brake_difference: u8,
}

/// Lap timing; the times are raw 32-bit float bit patterns (seconds).
#[derive(Clone, Copy, Debug, PartialEq, Eq, Structural)]
pub struct Lap {
    pub number: u16,
    pub best: u32,
    pub last: u32,
    pub current: u32,
    pub current_race_time: u32,
    pub race_position: u8,
}

/// The decoded record for one datagram: produced in full or not at all,
/// never mutated after construction.
#[derive(Clone, Copy, Debug, PartialEq, Eq, Structural)]
pub struct Packet {
    /// True when a race is running; false in menus or with the race
    /// stopped.  A false packet's other fields are decoded but carry no
    /// meaningful sample.
    pub is_race_on: bool,
    /// Milliseconds; wraps on overflow.
    pub timestamp_ms: u32,
    pub general: General,
    pub engine: Engine,
    pub wheels: Wheels,
    pub suspension: Suspension,
    pub spatial: Spatial,
    /// Non-dimensional surface rumble for controller force feedback,
    /// raw bit patterns.
    pub surface_rumble_front_left: u32,
    pub surface_rumble_front_right: u32,
    pub surface_rumble_rear_left: u32,
    pub surface_rumble_rear_right: u32,
    pub dash: Dash,
}

/// The identity group as the schema lays it out in `b`.
pub open spec fn spec_general(b: Seq<u8>) -> General {
    General {
        drive_train: u8_at(b, 224),
        cylinders: u8_at(b, 228),
        performance_index: u8_at(b, 220),
        class: u8_at(b, 216),
        ordinal: u8_at(b, 212),
    }
}

/// The engine group as the schema lays it out in `b`.
pub open spec fn spec_engine(b: Seq<u8>) -> Engine {
    Engine {
        engine_max_rpm: f32_bits_at(b, 8),
        engine_idle_rpm: f32_bits_at(b, 12),
        current_engine_rpm: f32_bits_at(b, 16),
    }
}

/// The tire group as the schema lays it out in `b`.
pub open spec fn spec_tires(b: Seq<u8>) -> Tires {
    Tires {
        tire_slip_rotation_front_left: f32_bits_at(b, 84),
        tire_slip_rotation_front_right: f32_bits_at(b, 88),
        tire_slip_rotation_rear_left: f32_bits_at(b, 92),
        tire_slip_rotation_rear_right: f32_bits_at(b, 96),
        tire_slip_angle_front_left: f32_bits_at(b, 164),
        tire_slip_angle_front_right: f32_bits_at(b, 168),
        tire_slip_angle_rear_left: f32_bits_at(b, 172),
        tire_slip_angle_rear_right: f32_bits_at(b, 176),
        tire_combined_slip_front_left: f32_bits_at(b, 180),
        tire_combined_slip_front_right: f32_bits_at(b, 184),
        tire_combined_slip_rear_left: f32_bits_at(b, 188),
        tire_combined_slip_rear_right: f32_bits_at(b, 192),
        tire_temp_front_left: f32_bits_at(b, 256),
        tire_temp_front_right: f32_bits_at(b, 260),
        tire_temp_rear_left: f32_bits_at(b, 264),
        tire_temp_rear_right: f32_bits_at(b, 268),
    }
}

/// The wheel group as the schema lays it out in `b`.
pub open spec fn spec_wheels(b: Seq<u8>) -> Wheels {
    Wheels {
        wheel_rotation_speed_front_left: f32_bits_at(b, 100),
        wheel_rotation_speed_front_right: f32_bits_at(b, 104),
        wheel_rotation_speed_rear_left: f32_bits_at(b, 108),
        wheel_rotation_speed_rear_right: f32_bits_at(b, 112),
        wheel_on_rumble_strip_front_left: bool_at(b, 116),
        wheel_on_rumble_strip_front_right: bool_at(b, 120),
        wheel_on_rumble_strip_rear_left: bool_at(b, 124),
        wheel_on_rumble_strip_rear_right: bool_at(b, 128),
        wheel_in_puddle_depth_front_left: f32_bits_at(b, 132),
        wheel_in_puddle_depth_front_right: f32_bits_at(b, 136),
        wheel_in_puddle_depth_rear_left: f32_bits_at(b, 140),
        wheel_in_puddle_depth_rear_right: f32_bits_at(b, 144),
        tires: spec_tires(b),
    }
}

/// The suspension group as the schema lays it out in `b`.
pub open spec fn spec_suspension(b: Seq<u8>) -> Suspension {
    Suspension {
        normalized_suspension_travel_front_left: f32_bits_at(b, 68),
        normalized_suspension_travel_front_right: f32_bits_at(b, 72),
        normalized_suspension_travel_rear_left: f32_bits_at(b, 76),
        normalized_suspension_travel_rear_right: f32_bits_at(b, 80),
        suspension_travel_meters_front_left: f32_bits_at(b, 196),
        suspension_travel_meters_front_right: f32_bits_at(b, 200),
        suspension_travel_meters_rear_left: f32_bits_at(b, 204),
        suspension_travel_meters_rear_right: f32_bits_at(b, 208),
    }
}

/// The spatial group as the schema lays it out in `b`.
pub open spec fn spec_spatial(b: Seq<u8>) -> Spatial {
    Spatial {
        acceleration_x: f32_bits_at(b, 20),
        acceleration_y: f32_bits_at(b, 24),
        acceleration_z: f32_bits_at(b, 28),
        velocity_x: f32_bits_at(b, 32),
        velocity_y: f32_bits_at(b, 36),
        velocity_z: f32_bits_at(b, 40),
        angular_velocity_x: f32_bits_at(b, 44),
        angular_velocity_y: f32_bits_at(b, 48),
        angular_velocity_z: f32_bits_at(b, 52),
        yaw: f32_bits_at(b, 56),
        pitch: f32_bits_at(b, 60),
        roll: f32_bits_at(b, 64),
    }
}

/// The lap group as the schema lays it out in `b`.
pub open spec fn spec_lap(b: Seq<u8>) -> Lap {
    Lap {
        number: u16_at(b, 300),
        best: f32_bits_at(b, 284),
        last: f32_bits_at(b, 288),
        current: f32_bits_at(b, 292),
        current_race_time: f32_bits_at(b, 296),
        race_position: u8_at(b, 302),
    }
}

/// The dashboard group as the schema lays it out in `b`.
pub open spec fn spec_dash(b: Seq<u8>) -> Dash {
    Dash {
        position_x: f32_bits_at(b, 232),
        position_y: f32_bits_at(b, 236),
        position_z: f32_bits_at(b, 240),
        speed: f32_bits_at(b, 244),
        power: f32_bits_at(b, 248),
        torque: f32_bits_at(b, 252),
        boost: f32_bits_at(b, 272),
        fuel: f32_bits_at(b, 276),
        distance_traveled: f32_bits_at(b, 280),
        lap: spec_lap(b),
        acceleration: u8_at(b, 303),
        brake: u8_at(b, 304),
        clutch: u8_at(b, 305),
        handbrake: u8_at(b, 306),
        gear: u8_at(b, 307),
        steer: i8_at(b, 308),
        normalized_driving_line: u8_at(b, 309),
        normalized_ai_brake_difference: u8_at(b, 310),
    }
}

/// The whole record as the schema lays it out in `b`: the one place the
/// offset table is written down.
pub open spec fn spec_packet(b: Seq<u8>) -> Packet {
    Packet {
        is_race_on: bool_at(b, 0),
        timestamp_ms: u32_at(b, 4),
        general: spec_general(b),
        engine: spec_engine(b),
        wheels: spec_wheels(b),
        suspension: spec_suspension(b),
        spatial: spec_spatial(b),
        surface_rumble_front_left: f32_bits_at(b, 148),
        surface_rumble_front_right: f32_bits_at(b, 152),
        surface_rumble_rear_left: f32_bits_at(b, 156),
        surface_rumble_rear_right: f32_bits_at(b, 160),
        dash: spec_dash(b),
    }
}

impl General {
    /// Extracts the identity group from a buffer long enough for the
    /// whole schema.
    pub fn read(data: &[u8]) -> (r: General)
        requires
            data@.len() >= MIN_PACKET_LEN,
        ensures
            r == spec_general(data@),
    {
        General {
            drive_train: read_u8(data, 224).unwrap(),
            cylinders: read_u8(data, 228).unwrap(),
            performance_index: read_u8(data, 220).unwrap(),
            class: read_u8(data, 216).unwrap(),
            ordinal: read_u8(data, 212).unwrap(),
        }
    }
}

impl Engine {
    /// Extracts the engine group from a buffer long enough for the
    /// whole schema.
    pub fn read(data: &[u8]) -> (r: Engine)
        requires
            data@.len() >= MIN_PACKET_LEN,
        ensures
            r == spec_engine(data@),
    {
        Engine {
            engine_max_rpm: read_u32(data, 8).unwrap(),
            engine_idle_rpm: read_u32(data, 12).unwrap(),
            current_engine_rpm: read_u32(data, 16).unwrap(),
        }
    }
}

impl Tires {
    /// Extracts the tire group from a buffer long enough for the
    /// whole schema.
    pub fn read(data: &[u8]) -> (r: Tires)
        requires
            data@.len() >= MIN_PACKET_LEN,
        ensures
            r == spec_tires(data@),
    {
        Tires {
            tire_slip_rotation_front_left: read_u32(data, 84).unwrap(),
            tire_slip_rotation_front_right: read_u32(data, 88).unwrap(),
            tire_slip_rotation_rear_left: read_u32(data, 92).unwrap(),
            tire_slip_rotation_rear_right: read_u32(data, 96).unwrap(),
            tire_slip_angle_front_left: read_u32(data, 164).unwrap(),
            tire_slip_angle_front_right: read_u32(data, 168).unwrap(),
            tire_slip_angle_rear_left: read_u32(data, 172).unwrap(),
            tire_slip_angle_rear_right: read_u32(data, 176).unwrap(),
            tire_combined_slip_front_left: read_u32(data, 180).unwrap(),
            tire_combined_slip_front_right: read_u32(data, 184).unwrap(),
            tire_combined_slip_rear_left: read_u32(data, 188).unwrap(),
            tire_combined_slip_rear_right: read_u32(data, 192).unwrap(),
            tire_temp_front_left: read_u32(data, 256).unwrap(),
            tire_temp_front_right: read_u32(data, 260).unwrap(),
            tire_temp_rear_left: read_u32(data, 264).unwrap(),
            tire_temp_rear_right: read_u32(data, 268).unwrap(),
        }
    }
}

impl Wheels {
    /// Extracts the wheel group from a buffer long enough for the
    /// whole schema.
    pub fn read(data: &[u8]) -> (r: Wheels)
        requires
            data@.len() >= MIN_PACKET_LEN,
        ensures
            r == spec_wheels(data@),
    {
        Wheels {
            wheel_rotation_speed_front_left: read_u32(data, 100).unwrap(),
            wheel_rotation_speed_front_right: read_u32(data, 104).unwrap(),
            wheel_rotation_speed_rear_left: read_u32(data, 108).unwrap(),
            wheel_rotation_speed_rear_right: read_u32(data, 112).unwrap(),
            wheel_on_rumble_strip_front_left: read_bool(data, 116).unwrap(),
            wheel_on_rumble_strip_front_right: read_bool(data, 120).unwrap(),
            wheel_on_rumble_strip_rear_left: read_bool(data, 124).unwrap(),
            wheel_on_rumble_strip_rear_right: read_bool(data, 128).unwrap(),
            wheel_in_puddle_depth_front_left: read_u32(data, 132).unwrap(),
            wheel_in_puddle_depth_front_right: read_u32(data, 136).unwrap(),
            wheel_in_puddle_depth_rear_left: read_u32(data, 140).unwrap(),
            wheel_in_puddle_depth_rear_right: read_u32(data, 144).unwrap(),
            tires: Tires::read(data),
        }
    }
}

impl Suspension {
    /// Extracts the suspension group from a buffer long enough for the
    /// whole schema.
    pub fn read(data: &[u8]) -> (r: Suspension)
        requires
            data@.len() >= MIN_PACKET_LEN,
        ensures
            r == spec_suspension(data@),
    {
        Suspension {
            normalized_suspension_travel_front_left: read_u32(data, 68).unwrap(),
            normalized_suspension_travel_front_right: read_u32(data, 72).unwrap(),
            normalized_suspension_travel_rear_left: read_u32(data, 76).unwrap(),
            normalized_suspension_travel_rear_right: read_u32(data, 80).unwrap(),
            suspension_travel_meters_front_left: read_u32(data, 196).unwrap(),
            suspension_travel_meters_front_right: read_u32(data, 200).unwrap(),
            suspension_travel_meters_rear_left: read_u32(data, 204).unwrap(),
            suspension_travel_meters_rear_right: read_u32(data, 208).unwrap(),
        }
    }
}

impl Spatial {
    /// Extracts the spatial group from a buffer long enough for the
    /// whole schema.
    pub fn read(data: &[u8]) -> (r: Spatial)
        requires
            data@.len() >= MIN_PACKET_LEN,
        ensures
            r == spec_spatial(data@),
    {
        Spatial {
            acceleration_x: read_u32(data, 20).unwrap(),
            acceleration_y: read_u32(data, 24).unwrap(),
            acceleration_z: read_u32(data, 28).unwrap(),
            velocity_x: read_u32(data, 32).unwrap(),
            velocity_y: read_u32(data, 36).unwrap(),
            velocity_z: read_u32(data, 40).unwrap(),
            angular_velocity_x: read_u32(data, 44).unwrap(),
            angular_velocity_y: read_u32(data, 48).unwrap(),
            angular_velocity_z: read_u32(data, 52).unwrap(),
            yaw: read_u32(data, 56).unwrap(),
            pitch: read_u32(data, 60).unwrap(),
            roll: read_u32(data, 64).unwrap(),
        }
    }
}

impl Lap {
    /// Extracts the lap group from a buffer long enough for the
    /// whole schema.
    pub fn read(data: &[u8]) -> (r: Lap)
        requires
            data@.len() >= MIN_PACKET_LEN,
        ensures
            r == spec_lap(data@),
    {
        Lap {
            number: read_u16(data, 300).unwrap(),
            best: read_u32(data, 284).unwrap(),
            last: read_u32(data, 288).unwrap(),
            current: read_u32(data, 292).unwrap(),
            current_race_time: read_u32(data, 296).unwrap(),
            race_position: read_u8(data, 302).unwrap(),
        }
    }
}

impl Dash {
    /// Extracts the dashboard group from a buffer long enough for the
    /// whole schema.
    pub fn read(data: &[u8]) -> (r: Dash)
        requires
            data@.len() >= MIN_PACKET_LEN,
        ensures
            r == spec_dash(data@),
    {
        Dash {
            position_x: read_u32(data, 232).unwrap(),
            position_y: read_u32(data, 236).unwrap(),
            position_z: read_u32(data, 240).unwrap(),
            speed: read_u32(data, 244).unwrap(),
            power: read_u32(data, 248).unwrap(),
            torque: read_u32(data, 252).unwrap(),
            boost: read_u32(data, 272).unwrap(),
            fuel: read_u32(data, 276).unwrap(),
            distance_traveled: read_u32(data, 280).unwrap(),
            lap: Lap::read(data),
            acceleration: read_u8(data, 303).unwrap(),
            brake: read_u8(data, 304).unwrap(),
            clutch: read_u8(data, 305).unwrap(),
            handbrake: read_u8(data, 306).unwrap(),
            gear: read_u8(data, 307).unwrap(),
            steer: read_i8(data, 308).unwrap(),
            normalized_driving_line: read_u8(data, 309).unwrap(),
            normalized_ai_brake_difference: read_u8(data, 310).unwrap(),
        }
    }
}

impl Packet {
    /// Decodes one datagram.  Succeeds exactly when the buffer reaches
    /// the schema's minimum length, and then yields the record whose
    /// every field is the value stored at its documented offset; a
    /// shorter buffer is rejected whole with `Truncated`.
    pub fn new(data: &[u8]) -> (r: Result<Packet, DecodeError>)
        ensures
            data@.len() >= MIN_PACKET_LEN ==> r == Ok::<Packet, DecodeError>(spec_packet(data@)),
            data@.len() < MIN_PACKET_LEN ==> r == Err::<Packet, DecodeError>(
                DecodeError::Truncated(MIN_PACKET_LEN as usize),
            ),
    {
        if data.len() < MIN_PACKET_LEN {
            return Err(DecodeError::Truncated(MIN_PACKET_LEN));
        }
        Ok(
            Packet {
                is_race_on: read_bool(data, 0).unwrap(),
                timestamp_ms: read_u32(data, 4).unwrap(),
                general: General::read(data),
                engine: Engine::read(data),
                wheels: Wheels::read(data),
                suspension: Suspension::read(data),
                spatial: Spatial::read(data),
                surface_rumble_front_left: read_u32(data, 148).unwrap(),
                surface_rumble_front_right: read_u32(data, 152).unwrap(),
                surface_rumble_rear_left: read_u32(data, 156).unwrap(),
                surface_rumble_rear_right: read_u32(data, 160).unwrap(),
                dash: Dash::read(data),
            },
        )
    }
}

} // verus!
