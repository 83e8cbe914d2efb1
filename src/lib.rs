//! Time-to-clear estimation for boss phases: the decision logic of the
//! threshold solver and the layout of the input tables, verified.
//!
//! A DPS profile is a time-ordered list of samples, each the average DPS
//! from time 0 to its time, so that a sample's cumulative damage is its time
//! times its DPS. To find when a squad reaches a damage threshold, the
//! caller compares each sample's cumulative damage with the threshold;
//! [`bracket::locate`] picks the samples on either side of it and
//! [`bracket::plan`] the estimate that applies. [`table`] reads the fields
//! of the reference and phase-definition tables.
pub mod bracket;
pub mod table;
