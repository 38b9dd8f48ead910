//! The core of a control panel for a three-colour LED strip: hue, saturation
//! and value are turned into a preview colour and into the form-encoded body
//! that the device expects.
//!
//! The library computes on whole numbers. For the preview, saturation and
//! value are held in millionths and a hue in millionths of a sector. A
//! reading is rounded to these units before it reaches the library, and one
//! that they cannot hold is handed over as missing; from there on nothing is
//! rounded: the preview colour is the truncation of the exact formula. The
//! request takes no part in this: it carries each number as the text that
//! was made of it where it was read, unrounded and of any size.

pub mod color;
pub mod decimal;
pub mod panel;
pub mod pattern;
pub mod request;
pub mod swatch;
