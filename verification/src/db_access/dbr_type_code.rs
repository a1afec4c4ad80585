//! The numeric codes by which the bus names its record layouts.

use vstd::prelude::*;

verus! {

pub const DBR_STRING: i16 = 0;

pub const DBR_SHORT: i16 = 1;

pub const DBR_FLOAT: i16 = 2;

pub const DBR_ENUM: i16 = 3;

pub const DBR_CHAR: i16 = 4;

pub const DBR_LONG: i16 = 5;

pub const DBR_DOUBLE: i16 = 6;

pub const DBR_TIME_STRING: i16 = 14;

pub const DBR_TIME_SHORT: i16 = 15;

pub const DBR_TIME_FLOAT: i16 = 16;

pub const DBR_TIME_ENUM: i16 = 17;

pub const DBR_TIME_CHAR: i16 = 18;

pub const DBR_TIME_LONG: i16 = 19;

pub const DBR_TIME_DOUBLE: i16 = 20;

pub const DBR_CTRL_SHORT: i16 = 29;

pub const DBR_CTRL_FLOAT: i16 = 30;

pub const DBR_CTRL_ENUM: i16 = 31;

pub const DBR_CTRL_CHAR: i16 = 32;

pub const DBR_CTRL_LONG: i16 = 33;

pub const DBR_CTRL_DOUBLE: i16 = 34;

} // verus!
