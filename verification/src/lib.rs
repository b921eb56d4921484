//! Verified control logic for a small range-finding robot.
//!
//! The robot pings an ultrasonic sensor, times the echo and shows the distance
//! on an RGB light. This crate holds the decisions of each of its tasks: what
//! to drive, what to remember and when to run again. Each task is a function
//! from what the hardware reports to what the hardware is to do, so that the
//! firmware around it only reads pins and carries out the answer.

pub mod blinky;
pub mod pwm;
pub mod range_finder;
pub mod rgb_controller;
pub mod rgb_led;
pub mod schedule;
