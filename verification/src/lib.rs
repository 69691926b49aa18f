//! Core of a resizable, sortable, lazily populated table widget.
//!
//! The crate models the widget as plain data and explicit state machines,
//! decoupled from any particular UI toolkit:
//!
//! - [`width::Width`] and [`column::Column`] describe column metadata;
//! - [`table::Table`] owns the column array, the authoritative width store
//!   and the sort precedence list, and coordinates resize and sort events;
//! - [`splitter::Splitter`] turns pointer input at a column boundary into a
//!   list of commands for the hosting event loop to apply;
//! - [`rows::RowProducer`] is the pull-based protocol through which the host
//!   supplies body rows one at a time, never materializing the full row set;
//! - [`header::HeaderRow`] describes the header cells and their splitters,
//!   and [`render`] drives one full pass: header first, then rows until the
//!   producer signals the end.
//!
//! All input events, width writes and render passes run synchronously on
//! one thread, so a width written while handling an event is observed by
//! every reader of the next pass.

pub mod column;
pub mod header;
pub mod render;
pub mod rows;
pub mod splitter;
pub mod table;
pub mod width;
