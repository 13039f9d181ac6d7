//! The engine of a desktop tool that composes HTTP and WebSocket requests,
//! fires them and keeps what comes back: the request executor with its
//! lifecycle, its command channel and its response records, and the tree of
//! requests and collections that the executor's requests live in.

pub mod clock;
pub mod executor;
pub mod ids;
pub mod json;
pub mod settings;
pub mod states;
pub mod status;
pub mod text;
pub mod ui;
