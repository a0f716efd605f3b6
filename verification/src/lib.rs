//! Rules of a small rail shooter: a ship that is steered along a fixed path,
//! the shots it fires, and the targets that shots destroy.
//!
//! Every quantity is a fixed-point number. Lengths and the components of a
//! rotation are counted in millionths ([`units::UNIT`] of them make one), and
//! time in microseconds, so that one second is one unit of time.

pub mod units;
pub mod ship;
pub mod laser;
pub mod collision;
pub mod controls;
pub mod scene;
