//! Preparing scanned receipts for text recognition: a decoded image is
//! reduced to 8-bit luminance and then binarised against a fixed cutoff, so
//! that faint carbon-copy ink becomes pure black on a pure white background.

pub mod grid;
pub mod pipeline;
pub mod scanner;
pub mod threshold;
