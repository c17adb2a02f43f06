//! The core of a browser shell whose window can be watched over HTTP: the
//! tab registry, the command dispatcher, the capture steps with the frame
//! store, and the answers of the stream server.
//!
//! The library owns no window, socket or clock. Callers hand it plain
//! values (a message from the page, a request path, grabbed pixels, the
//! time) and carry out what it returns.

pub mod address;
pub mod codec;
pub mod command;
pub mod frame;
pub mod json;
pub mod server;
pub mod tabs;
pub mod text;
pub mod toolbar;
