//! A button-driven LED animation controller.
//!
//! One button and one LED form a pair. Short, long and double presses of the
//! button move the LED between four modes: off, steadily on, blinking and
//! fading. This crate holds the rules of that pair: the brightness type, the
//! states with their time and press transitions, the classification of
//! presses, and the two controllers that a runtime drives.

pub mod led_level;
pub mod pending;
pub mod led_states;
pub mod animation;
pub mod controllers;
