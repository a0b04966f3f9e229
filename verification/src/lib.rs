//! Verified core of a controller proxy: HID report decoding, the axis
//! jitter rule, the input loops' decisions, and the text of the console UI.
pub mod report;
pub mod text;
pub mod layout;
pub mod controller;
pub mod gamepad;
pub mod polling;
pub mod host;
pub mod hidhide;
pub mod json;
