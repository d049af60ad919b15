//! Plain data records for the UI widget kinds the framework renders.
//!
//! Each widget kind carries a positional record of optional fields (its
//! "LSData"). The engine itself never interprets these records — they are
//! filled and read by the widget layer on top — so they are modeled here as
//! plain structs with optional fields, free of any parsing machinery.

/// Action widgets: buttons and links.
pub mod action;
/// Composite widgets: tables and their cells.
pub mod complex;
/// Graphic widgets: images.
pub mod graphic;
/// Layout widgets: containers, forms, grids, tabs, trays.
pub mod layout;
/// Selection widgets: check boxes, combo boxes, list boxes.
pub mod selection;
/// System widgets: loading placeholders.
pub mod system;
/// Text widgets: captions, input fields, labels, text views.
pub mod text;
