//! Button and axis index constants for the packed controller state.

use vstd::prelude::*;

verus! {

pub const BUTTON_Y: usize = 0;
pub const BUTTON_X: usize = 1;
pub const BUTTON_B: usize = 2;
pub const BUTTON_A: usize = 3;
pub const BUTTON_RSR: usize = 4;
pub const BUTTON_RSL: usize = 5;
pub const BUTTON_R: usize = 6;
pub const BUTTON_ZR: usize = 7;
pub const BUTTON_MINUS: usize = 8;
pub const BUTTON_PLUS: usize = 9;
pub const BUTTON_R_STICK: usize = 10;
pub const BUTTON_L_STICK: usize = 11;
pub const BUTTON_HOME: usize = 12;
pub const BUTTON_CAPTURE: usize = 13;
/// "Controller sits in the charging grip": a byte-1 system flag, forced
/// true at creation because the console treats an ungripped controller
/// differently during pairing, and never cleared by normal play.
pub const BUTTON_CHARGING_GRIP: usize = 15;
pub const BUTTON_DOWN: usize = 16;
pub const BUTTON_UP: usize = 17;
pub const BUTTON_RIGHT: usize = 18;
pub const BUTTON_LEFT: usize = 19;
pub const BUTTON_LSR: usize = 20;
pub const BUTTON_LSL: usize = 21;
pub const BUTTON_L: usize = 22;
pub const BUTTON_ZL: usize = 23;

pub const AXIS_LH: usize = 0;
pub const AXIS_LV: usize = 1;
pub const AXIS_RH: usize = 2;
pub const AXIS_RV: usize = 3;

} // verus!
