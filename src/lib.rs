//! Capture-and-annotate core of a screen grabbing utility: capture planning,
//! crop and pointer geometry, the annotation state machine, and image encoding.

pub mod choice;
pub mod enums;
pub mod raster;
pub mod drawing;
pub mod geometry;
pub mod annotate;
pub mod session;
pub mod capture;
pub mod naming;
pub mod codec;
pub mod shortcut;
