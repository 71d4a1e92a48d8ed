//! The numbers of the driver's C interface.
//!
//! Status codes, and the codes by which the driver names units, wirings,
//! clock edges and the like. They are part of the driver's binary interface
//! and do not change between its releases.

use vstd::prelude::*;

verus! {

/// The status with which a string getter reports that the buffer it was
/// given cannot hold the value.
pub const ERROR_BUFFER_TOO_SMALL_FOR_STRING: i32 = -200228;

/// The status with which a string getter reports that it cut the value to
/// make it fit the buffer.
pub const WARNING_STRING_TRUNCATED_TO_FIT_BUFFER: i32 = 200026;

/// The size, in bytes, of the buffer in which a status text is fetched.
pub const MESSAGE_BUFFER_SIZE: u32 = 2048;

/// The bits of the timeout that makes a call wait without limit: -1 as a
/// double.
pub const VAL_WAIT_INFINITELY_BITS: u64 = 0xBFF0_0000_0000_0000;

pub const VAL_GROUP_BY_CHANNEL: i32 = 0;

pub const VAL_GROUP_BY_SCAN_NUMBER: i32 = 1;

pub const VAL_RISING: i32 = 10280;

pub const VAL_FALLING: i32 = 10171;

pub const VAL_FINITE_SAMPS: i32 = 10178;

pub const VAL_CONT_SAMPS: i32 = 10123;

pub const VAL_HW_TIMED_SINGLE_POINT: i32 = 12522;

pub const VAL_CFG_DEFAULT: i32 = -1;

pub const VAL_RSE: i32 = 10083;

pub const VAL_NRSE: i32 = 10078;

pub const VAL_DIFF: i32 = 10106;

pub const VAL_PSEUDO_DIFF: i32 = 12529;

pub const VAL_FROM_CUSTOM_SCALE: i32 = 10065;

pub const VAL_FROM_TEDS: i32 = 12516;

pub const VAL_VOLTS: i32 = 10348;

pub const VAL_AMPS: i32 = 10342;

pub const VAL_DEG_F: i32 = 10144;

pub const VAL_DEG_C: i32 = 10143;

pub const VAL_DEG_R: i32 = 10145;

pub const VAL_KELVINS: i32 = 10325;

pub const VAL_STRAIN: i32 = 10299;

pub const VAL_OHMS: i32 = 10384;

pub const VAL_HZ: i32 = 10373;

pub const VAL_SECONDS: i32 = 10364;

pub const VAL_METERS: i32 = 10219;

pub const VAL_INCHES: i32 = 10379;

pub const VAL_DEGREES: i32 = 10146;

pub const VAL_RADIANS: i32 = 10273;

pub const VAL_G: i32 = 10186;

pub const VAL_METERS_PER_SECOND_SQUARED: i32 = 12470;

pub const VAL_NEWTONS: i32 = 15875;

pub const VAL_POUNDS: i32 = 15876;

pub const VAL_POUNDS_PER_SQUARE_INCH: i32 = 15879;

pub const VAL_BAR: i32 = 15880;

pub const VAL_PASCALS: i32 = 10081;

pub const VAL_VOLTS_PER_VOLT: i32 = 15896;

pub const VAL_M_VOLTS_PER_VOLT: i32 = 15897;

pub const VAL_NEWTON_METERS: i32 = 15881;

pub const VAL_INCH_OUNCES: i32 = 15882;

pub const VAL_INCH_POUNDS: i32 = 15883;

pub const VAL_FOOT_POUNDS: i32 = 15884;

} // verus!
