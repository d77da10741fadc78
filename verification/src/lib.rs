//! Localization and steering for a marker-tagged vehicle in an arena of four
//! quadrants, each marked by a landmark.
//!
//! Once per tick the application hands the frames of its cameras to
//! [`control::Controller::tick`], which merges them, remembers the landmarks
//! they show, and says what the tick came to. Where the vehicle is to be
//! steered, [`steering::steer`] turns its pose, the target and the bearing to
//! the target into a drive command. The replies of the service that assigns
//! the target are read by [`oracle::read_reply`].
//!
//! All quantities are fixed-point integers, so that every decision is exact:
//! lengths are in thousandths of a pixel, angles in microradians, and speeds
//! in thousandths of full speed (see [`units`]). Arc tangents are the
//! caller's to take.

pub mod config;
pub mod control;
pub mod fusion;
pub mod json;
pub mod oracle;
pub mod pose;
pub mod quadrant;
pub mod steering;
pub mod text;
pub mod units;
