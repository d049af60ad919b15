//! Page-state synchronization engine for WebDynpro-style server-rendered UIs.
//!
//! The library keeps a cached HTML snapshot of a stateful server page in sync
//! with the server: it decodes the server's incremental `<updates>` responses
//! into a typed [`body::BodyUpdate`], patches the snapshot through a streaming
//! HTML rewrite, extracts the hidden session-bootstrap form once per
//! navigation, and buffers user events until they are serialized into the
//! framework's escape-coded wire format.

pub mod body;
pub mod command;
pub mod element;
pub mod error;
pub mod event;
pub mod patch;
pub mod ssr;
pub mod state;
pub mod strutil;
pub mod xml;
