//! The status line: segments of text, each with its style, joined into one
//! line.

pub mod segments;
pub mod statusline;
