//! Shared-state core of a small instrument plugin.
//!
//! Three components make up the library:
//!
//! - [`state`]: a mode/position value holder with last-write-wins get/set
//!   operations;
//! - [`router`]: the real-time path, which decodes performance-event codes
//!   against a fixed table and writes the resulting mode and the transport
//!   position into the holder;
//! - [`bridge`]: the query path, which answers line-oriented text commands
//!   (`getMode`, `getTime`) from the current holder values.
//!
//! The module [`html`] builds the markup document handed to the embedded
//! control surface, and [`decimal`] formats the mode value as decimal text.

pub mod bridge;
pub mod decimal;
pub mod html;
pub mod router;
pub mod state;
