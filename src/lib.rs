//! Reconciliation of a display server's monitor configuration against a
//! declared desired state: mode matching under a refresh-rate tolerance,
//! sparse per-monitor diffs, an ordered apply plan and per-monitor outcomes.
pub mod model;
pub mod modes;
pub mod diff;
pub mod apply;
pub mod reconcile;
pub mod identity;
