//! Width-aware padding for terminal output.
//!
//! Text is aligned to a requested field width measured in terminal display
//! columns, not in characters, so that strings mixing narrow (Latin) and wide
//! (East-Asian) characters line up in a monospaced terminal. A signed field
//! width selects the alignment: negative pads on the right (left-align),
//! non-negative pads on the left (right-align). Content wider than the field
//! is never truncated; it is returned unpadded.

pub mod color;
pub mod fmt;
pub mod laws;
pub mod pad;
pub mod render;
pub mod width;
