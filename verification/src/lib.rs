//! A model of terminal text colors: the 16 standard ANSI colors, 256-color
//! palette indices and 24-bit true color, with case-insensitive name parsing
//! and rendering to ANSI SGR parameter strings.

pub mod casing;
pub mod color;
pub mod digits;

pub use color::Color;
pub use color::NameNotRecognized;
