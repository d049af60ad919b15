//! Data records of the selection widgets: check boxes, combo boxes and
//! list box items.

use vstd::prelude::*;

verus! {

/// The positional record of a check box.
#[derive(Debug, Clone)]
#[allow(missing_docs)]
pub struct CheckBoxLSData {
    pub name: Option<String>,
    pub checked: Option<bool>,
    pub enabled: Option<bool>,
    pub readonly: Option<bool>,
    pub text: Option<String>,
    pub tooltip: Option<String>,
    pub invalid: Option<bool>,
    pub visibility: Option<String>,
    pub show_help: Option<bool>,
    pub input_state: Option<String>,
    pub access_key: Option<String>,
    pub arrangement: Option<String>,
    pub associated_edit_context: Option<String>,
    pub text_design: Option<String>,
    pub used_in_sap_table: Option<bool>,
    pub custom_data: Option<String>,
    pub custom_style: Option<String>,
    pub text_overflow: Option<bool>,
    pub height: Option<String>,
    pub is_text_label: Option<bool>,
    pub labelled_by: Option<String>,
}

/// How a combo box takes input.
#[derive(Clone, Copy, Debug, PartialEq, Eq, Structural)]
#[allow(missing_docs)]
pub enum ComboBoxBehavior {
    DropdownSelect,
    FreeText,
    SuggestList,
    SuggestFieldHelp,
}

/// The positional record of a combo box.
#[derive(Debug, Clone)]
#[allow(missing_docs)]
pub struct ComboBoxLSData {
    pub width: Option<String>,
    pub behavior: Option<ComboBoxBehavior>,
    pub allow_virtual_typing: Option<String>,
    pub item_list_box_id: Option<String>,
    pub key: Option<String>,
    pub value: Option<String>,
    pub visibility: Option<String>,
    pub container_width_set: Option<bool>,
    pub label_text: Option<String>,
    pub label_for: Option<String>,
    pub ime_mode: Option<String>,
    pub component_type: Option<String>,
    pub show_help_button_always: Option<String>,
    pub access_key: Option<String>,
    pub suggest_filter: Option<String>,
    pub display_as_text: Option<bool>,
    pub hide_field_help: Option<bool>,
    pub show_help_button: Option<bool>,
    pub suggest_auto_complete: Option<bool>,
    pub suggest_filter_condition: Option<String>,
    pub field_help_floating: Option<bool>,
    pub custom_data: Option<String>,
    pub custom_style: Option<String>,
    pub text_style: Option<String>,
    pub semantic_color: Option<String>,
    pub embedding_behaviour: Option<String>,
    pub sap_table_field_design: Option<String>,
    pub field_help_embedding: Option<bool>,
    pub height: Option<String>,
    pub labelled_by: Option<String>,
    pub tab_behaviour: Option<String>,
    pub described_by: Option<String>,
}

/// The positional record of an action item in a list box.
#[derive(Debug, Clone)]
#[allow(missing_docs)]
pub struct ListBoxActionItemLSData {
    pub custom_data: Option<String>,
}

} // verus!
