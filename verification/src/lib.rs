//! The coordinate engine of a full-screen text viewer.
//!
//! Three coordinate spaces meet here: the raw text of a document, its
//! rendered form with tabs expanded to tab stops, and the fixed grid of the
//! screen. The crate keeps a cursor inside the rendered document, keeps the
//! window scrolled so that the cursor is on screen, and lays out what each
//! screen line shows. It performs no input or output of its own.

pub mod cursor;
pub mod frame;
pub mod input;
pub mod row;
pub mod state;
pub mod viewport;
