//! Scheduled display brightness and night light: time-window matching, gradual
//! ramps, the scheduler loop's decisions and the controller's replace/cancel
//! protocol.

pub mod time_of_day;
pub mod schedule;
pub mod ramp;
pub mod backlight;
pub mod night_light;
pub mod scheduler;
pub mod controller;
