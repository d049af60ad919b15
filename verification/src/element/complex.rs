//! Data records of the composite table widget and its cell kinds.

use vstd::prelude::*;

verus! {

/// The positional record of a table.
#[derive(Debug, Clone)]
#[allow(missing_docs)]
pub struct SapTableLSData {
    pub title_text: Option<String>,
    pub accessibility_description: Option<String>,
    pub row_count: Option<u32>,
    pub col_count: Option<u32>,
}

/// The positional record of a table header cell.
#[derive(Debug, Clone)]
#[allow(missing_docs)]
pub struct SapTableHeaderCellLSData {
    pub sort_state: Option<String>,
    pub header_cell_design: Option<String>,
    pub header_cell_type: Option<String>,
    pub selection_column_action: Option<String>,
    pub selection_menu_id: Option<String>,
    pub row_selection_mass_state: Option<String>,
    pub required: Option<bool>,
    pub tooltip: Option<String>,
    pub column_selected: Option<bool>,
    pub column_selectable: Option<bool>,
    pub filtered: Option<bool>,
    pub mark_totals: Option<bool>,
    pub accessibility_description: Option<String>,
    pub icon_tooltip: Option<String>,
    pub icon_first: Option<bool>,
    pub icon_enabled: Option<bool>,
    pub custom_style: Option<String>,
    pub custom_data: Option<String>,
}

/// The positional record of a hierarchical table cell.
#[derive(Debug, Clone)]
#[allow(missing_docs)]
pub struct SapTableHierarchicalCellLSData {
    pub is_selected: Option<bool>,
    pub is_secondary_selected: Option<bool>,
    pub cell_design: Option<String>,
    pub header_cell_ids: Option<String>,
    pub level: Option<i32>,
    pub status: Option<String>,
    pub status_enabled: Option<bool>,
    pub content_type_tooltip: Option<String>,
    pub custom_style: Option<String>,
    pub custom_data: Option<String>,
}

/// The positional record of a matrix table cell.
#[derive(Debug, Clone)]
#[allow(missing_docs)]
pub struct SapTableMatrixCellLSData {
    pub cell_background_design: Option<String>,
    pub header_cell_ids: Option<String>,
    pub row_header_cell_ids: Option<String>,
    pub custom_data: Option<String>,
}

/// The positional record of a normal table cell.
#[derive(Debug, Clone)]
#[allow(missing_docs)]
pub struct SapTableNormalCellLSData {
    pub is_selected: Option<bool>,
    pub is_secondary_selected: Option<bool>,
    pub cell_type: Option<String>,
    pub cell_design: Option<String>,
    pub header_cell_ids: Option<String>,
    pub row_header_cell_ids: Option<String>,
    pub custom_style: Option<String>,
    pub custom_data: Option<String>,
}

/// The positional record of a selection table cell.
#[derive(Debug, Clone)]
#[allow(missing_docs)]
pub struct SapTableSelectionCellLSData {
    pub is_selected: Option<bool>,
    pub is_secondary_selected: Option<bool>,
    pub enabled: Option<bool>,
    pub cell_type: Option<String>,
    pub row_description: Option<String>,
    pub is_deselectable: Option<bool>,
    pub tooltip: Option<String>,
    pub custom_data: Option<String>,
}

} // verus!
