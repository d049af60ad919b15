//! Commands over widget kinds.

/// Commands over the action widgets: buttons and links.
pub mod action;
