//! Data records of the text widgets: captions, input fields, labels and
//! text views.

use vstd::prelude::*;

verus! {

/// The positional record of a caption.
#[derive(Debug, Clone)]
#[allow(missing_docs)]
pub struct CaptionLSData {
    pub tooltip: Option<String>,
    pub text: Option<String>,
    pub image_src: Option<String>,
    pub image_first: Option<bool>,
    pub image_width: Option<String>,
    pub image_height: Option<String>,
    pub is_nested: Option<bool>,
    pub visibility: Option<String>,
    pub is_drag_handle: Option<bool>,
    pub hover_image_src: Option<String>,
    pub drag_source_info: Option<String>,
    pub editable: Option<bool>,
    pub semantic_color: Option<String>,
    pub design: Option<String>,
    pub custom_data: Option<String>,
    pub labelled_by: Option<String>,
}

/// The positional record of an input field.
#[derive(Debug, Clone)]
#[allow(missing_docs)]
pub struct InputFieldLSData {
    pub value: Option<String>,
    pub show_help_button: Option<bool>,
    pub input_field_type: Option<String>,
    pub width: Option<String>,
    pub visibility: Option<String>,
    pub label_text: Option<String>,
    pub hide_field_help: Option<bool>,
    pub container_width_set: Option<bool>,
    pub ime_mode: Option<String>,
    pub auto_complete: Option<bool>,
    pub format_string: Option<String>,
    pub show_help_button_always: Option<bool>,
    pub date_picker_start_ref_id: Option<String>,
    pub access_key: Option<String>,
    pub display_as_text: Option<bool>,
    pub text_style: Option<String>,
    pub spinner_increment: Option<i32>,
    pub spinner_bounds_check: Option<bool>,
    pub spinner_max: Option<i32>,
    pub spinner_min: Option<i32>,
    pub sap_table_field_design: Option<String>,
    pub validation_trigger: Option<String>,
    pub tab_behaviour: Option<String>,
    pub semantic_color: Option<String>,
    pub embedding_behaviour: Option<String>,
    pub field_help_floating: Option<bool>,
    pub first_day_of_week: Option<i32>,
    pub custom_data: Option<String>,
    pub custom_style: Option<String>,
    pub field_help_embedding: Option<bool>,
    pub height: Option<String>,
    pub labelled_by: Option<String>,
    pub described_by: Option<String>,
}

/// The positional record of a label.
#[derive(Debug, Clone)]
#[allow(missing_docs)]
pub struct LabelLSData {
    pub tooltip: Option<String>,
    pub label_for: Option<String>,
    pub wrapping: Option<bool>,
    pub text: Option<String>,
    pub required: Option<bool>,
    pub enabled: Option<bool>,
    pub design_bar: Option<String>,
    pub width: Option<String>,
    pub has_icon: Option<bool>,
    pub image_first: Option<bool>,
    pub visibility: Option<String>,
    pub show_help: Option<bool>,
    pub access_key: Option<String>,
    pub align: Option<String>,
    pub text_overflow: Option<bool>,
    pub required_indicator_at_front: Option<bool>,
    pub interaction_behavior: Option<String>,
    pub is_link: Option<bool>,
    pub editable: Option<bool>,
    pub custom_data: Option<String>,
    pub custom_style: Option<String>,
    pub height: Option<String>,
    pub labelled_by: Option<String>,
}

/// The positional record of a text view.
#[derive(Debug, Clone)]
#[allow(missing_docs)]
pub struct TextViewLSData {
    pub tooltip: Option<String>,
    pub required: Option<bool>,
    pub enabled: Option<bool>,
    pub design: Option<String>,
    pub layout: Option<String>,
    pub semantic_color: Option<String>,
    pub semantic_bg_color: Option<String>,
    pub is_nested: Option<bool>,
    pub visibility: Option<String>,
    pub text_overflow: Option<bool>,
}

} // verus!
