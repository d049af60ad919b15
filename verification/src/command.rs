//! Commands: small values that name one interaction with one widget and
//! produce the event the queue carries for it.

/// Commands over the action widgets.
pub mod element;
