//! Terminal text decoration: ANSI escape sequences for named colors, 24-bit
//! accent colors, style attributes, layout helpers and per-character color
//! gradients.
pub mod text;
pub mod color;
pub mod escape;
pub mod gradient;
pub mod layout;
pub mod colors;

pub use color::{
    hex_to_rgb, identify_color_type, is_hex_color, is_rgb_color, parse_rgb, ColorType, RGB,
};
pub use colors::Colors;
pub use gradient::{render_gradient, Target};
