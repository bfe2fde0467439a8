//! Input and navigation core of a small button-driven menu device.
//!
//! Three push buttons drive a menu of three rows and a picture. The crate
//! holds the logic of that device and none of its hardware:
//!
//! - `buttons`: the debounce classifier that turns the raw level of a line,
//!   polled at a fixed period, into settled presses and releases;
//! - `settling`: what the classifier reports over a whole sequence of
//!   samples, stated by the runs of the sequence and proved;
//! - `ui`: the menu's states, its transition function and the frame that
//!   the display shows in each state;
//! - `tasks`: the poller and the dispatcher, as functions from state and
//!   input to the next state and the work to hand to the scheduler.
//!
//! Reading the lines, scheduling the tasks and performing the side effects
//! is left to the firmware around the crate.

pub mod buttons;
pub mod settling;
pub mod tasks;
pub mod ui;
