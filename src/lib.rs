//! Verified core of a GDI rendering and input backend for the Nuklear
//! immediate-mode GUI: colour conversion, the translation of window messages
//! into GUI input events, the mapping of draw commands onto GDI calls, the
//! pixel layout of images handed to GDI, and the font registry.
pub mod bitmap;
pub mod color;
pub mod draw;
pub mod fonts;
pub mod input;

pub use bitmap::{dib_bits, image_dib, DibImage};
pub use color::{convert_color, Color};
pub use draw::{render, Call, DrawCommand, GdiCall, Point, Vec2i};
pub use fonts::{FontID, Fonts};
pub use input::{
    translate_message, FrameSize, InputEvent, Key, MessageOutcome, MouseButton, WindowAction,
};
