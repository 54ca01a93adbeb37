//! Verified core of an X11 selection clipboard: the reader that drains a
//! converted selection, the worker that answers conversion requests, and the
//! store of offered selections that connects them.
//!
//! Nothing here talks to a display. Each part takes what the connection
//! delivered as plain values and says which requests to send next; the laws
//! that hold of the parts together are proved in [`laws`].

pub mod atoms;
pub mod clipboard;
pub mod error;
pub mod laws;
pub mod platform;
pub mod reader;
pub mod store;
pub mod text;
pub mod worker;
pub mod writer;
pub mod xproto;
