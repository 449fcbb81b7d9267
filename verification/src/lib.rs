//! Border-drawing glyphs for a tabular renderer.
//!
//! A [`border::BorderStyle`] selects the characters used to draw a table's
//! top and bottom border rows and its vertical column separators.

pub mod border;
