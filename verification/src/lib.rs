//! Verified core of a terminal walkthrough browser: a progress store over a
//! routes / chapters / steps tree, and a navigation state machine whose flat
//! display list interleaves unselectable chapter headers with selectable
//! step rows.

pub mod data;
pub mod models;
pub mod nav;
pub mod progress;
pub mod titles;
