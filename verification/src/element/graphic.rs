//! Data records of the graphic widgets: images.

use vstd::prelude::*;

verus! {

/// How an image is fitted into its box.
#[derive(Clone, Copy, Debug, PartialEq, Eq, Structural)]
#[allow(missing_docs)]
pub enum ItsDisplayMode {
    Normal,
    Stretch,
    Fit,
    NormalCenter,
    FitCenter,
    Fill,
}

/// The positional record of an image.
#[derive(Debug, Clone)]
#[allow(missing_docs)]
pub struct ImageLSData {
    pub tooltip: Option<String>,
    pub width: Option<String>,
    pub height: Option<String>,
    pub src: Option<String>,
    pub is_interactive: Option<bool>,
    pub has_image_map: Option<bool>,
    pub visibility: Option<String>,
    pub is_nested: Option<bool>,
    pub label_text: Option<String>,
    pub adjust_image_size: Option<bool>,
    pub drag_source_info: Option<String>,
    pub is_drag_handle: Option<bool>,
    pub enabled: Option<bool>,
    pub error_image_src: Option<String>,
    pub custom_data: Option<String>,
    pub its_mode: Option<bool>,
    pub its_display_mode: Option<ItsDisplayMode>,
    pub custom_style: Option<String>,
    pub drop_target_info: Option<String>,
    pub vertical_text_align: Option<String>,
    pub horizontal_text_align: Option<String>,
    pub used_in_sap_table: Option<bool>,
    pub labelled_by: Option<String>,
}

} // verus!
