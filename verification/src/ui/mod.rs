//! Screen logic: every width, column and string the renderers draw, computed from
//! plain values.

pub mod bottom_bar;
pub mod chart;
pub mod detail;
pub mod glyph;
pub mod help;
pub mod layout;
pub mod overview;
pub mod settings;
pub mod table;
pub mod theme;
