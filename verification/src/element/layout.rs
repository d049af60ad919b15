//! Data records of the layout widgets: containers, forms, grids, popups,
//! scroll areas, tabs and trays.

use vstd::prelude::*;

verus! {

/// The positional record of a flow layout.
#[derive(Debug, Clone)]
#[allow(missing_docs)]
pub struct FlowLayoutLSData {
    pub visibility: Option<String>,
    pub custom_data: Option<String>,
}

/// The positional record of a generic container.
#[derive(Debug, Clone)]
#[allow(missing_docs)]
pub struct ContainerLSData {
    pub locked: Option<bool>,
    pub printable: Option<bool>,
    pub print_area: Option<bool>,
    pub locked_design: Option<String>,
    pub locked_message: Option<String>,
    pub custom_data: Option<String>,
    pub custom_style: Option<String>,
}

/// The positional record of a button row.
#[derive(Debug, Clone)]
#[allow(missing_docs)]
pub struct ButtonRowLSData {
    pub visibility: Option<String>,
    pub custom_data: Option<String>,
}

/// The positional record of a form.
#[derive(Debug, Clone)]
#[allow(missing_docs)]
pub struct FormLSData {
    pub has_event_queue: Option<bool>,
    pub response_data: Option<String>,
    pub custom_data: Option<String>,
}

/// The HTML-level submit data of a form.
#[derive(Debug, Clone)]
#[allow(missing_docs)]
pub struct FormData {
    pub name: Option<String>,
    pub method: Option<String>,
    pub action: Option<String>,
    pub title: Option<String>,
    pub accept: Option<String>,
    pub accept_charset: Option<String>,
    pub enctype: Option<String>,
    pub target: Option<String>,
}

/// The positional record of a grid layout.
#[derive(Debug, Clone)]
#[allow(missing_docs)]
pub struct GridLayoutLSData {
    pub height: Option<String>,
    pub visibility: Option<String>,
    pub drag_source_info: Option<String>,
    pub drop_target_info: Option<String>,
    pub drop_decorator_type: Option<String>,
    pub custom_style: Option<String>,
    pub custom_data: Option<String>,
}

/// The positional record of one grid layout cell.
#[derive(Debug, Clone)]
#[allow(missing_docs)]
pub struct GridLayoutCellLSData {
    pub drag_data: Option<String>,
    pub semantic_color: Option<String>,
    pub custom_data: Option<String>,
    pub layout_cell_position: Option<String>,
    pub custom_style: Option<String>,
}

/// The positional record of a popup window.
#[derive(Debug, Clone)]
#[allow(missing_docs)]
pub struct PopupWindowLSData {
    pub is_resizable: Option<bool>,
    pub has_close_button: Option<bool>,
    pub x: Option<String>,
    pub y: Option<String>,
    pub width: Option<String>,
    pub height: Option<String>,
    pub window_size: Option<bool>,
    pub default_button_id: Option<String>,
    pub hotkeys_id: Option<String>,
    pub override_minimum_size: Option<bool>,
    pub is_maximized: Option<bool>,
    pub has_help_button: Option<bool>,
    pub mode: Option<String>,
    pub custom_data: Option<String>,
    pub custom_style: Option<String>,
    pub no_content_scrolling: Option<bool>,
    pub context_menu_event: Option<bool>,
    pub design: Option<String>,
}

/// The positional record of a scroll container.
#[derive(Debug, Clone)]
#[allow(missing_docs)]
pub struct ScrollContainerLSData {
    pub scrolling_mode: Option<String>,
    pub visibility: Option<String>,
    pub accessibility_description: Option<String>,
    pub is_layout: Option<bool>,
    pub default_button_id: Option<String>,
    pub tooltip: Option<String>,
    pub scroll_top: Option<i32>,
    pub scroll_left: Option<i32>,
    pub hotkeys_id: Option<String>,
    pub custom_data: Option<String>,
    pub custom_style: Option<String>,
    pub labelled_by: Option<String>,
}

/// The direction a scrollbar moves in.
#[derive(Clone, Copy, Debug, PartialEq, Eq, Structural)]
#[allow(missing_docs)]
pub enum ScrollDirection {
    Vertical,
    Horizontal,
}

/// The positional record of a scrollbar.
#[derive(Debug, Clone)]
#[allow(missing_docs)]
pub struct ScrollbarLSData {
    pub value: Option<i32>,
    pub maximum: Option<i32>,
    pub minimum: Option<i32>,
    pub large_change: Option<i32>,
    pub small_change: Option<i32>,
    pub scroll_direction: Option<ScrollDirection>,
    pub scrolled_element_id: Option<String>,
    pub show_scroll_tip: Option<bool>,
    pub scroll_tip_value_description: Option<String>,
    pub enabled: Option<bool>,
    pub item_count: Option<i32>,
    pub custom_data: Option<String>,
    pub visibility: Option<String>,
}

/// The positional record of a tab strip.
#[derive(Debug, Clone)]
#[allow(missing_docs)]
pub struct TabStripLSData {
    pub current_index: Option<i32>,
    pub height: Option<String>,
    pub width: Option<String>,
    pub accessibility_description: Option<String>,
    pub visibility: Option<String>,
    pub first_visible_item_idx: Option<i32>,
    pub scrollable: Option<bool>,
    pub exact_tab_alignment: Option<bool>,
    pub client_tab_select: Option<bool>,
    pub drag_source_info: Option<String>,
    pub drop_target_info: Option<String>,
    pub tab_items_position: Option<String>,
    pub custom_data: Option<String>,
    pub custom_style: Option<String>,
    pub tab_items_design: Option<String>,
    pub heading_level: Option<i32>,
}

/// The positional record of one tab strip item.
#[derive(Debug, Clone)]
#[allow(missing_docs)]
pub struct TabStripItemLSData {
    pub id: Option<String>,
    pub index: Option<i32>,
    pub caption: Option<String>,
    pub has_title_caption: Option<bool>,
    pub tooltip: Option<String>,
    pub enabled: Option<bool>,
    pub scrolling_mode: Option<String>,
    pub has_toolbar: Option<bool>,
    pub default_button_id: Option<String>,
    pub is_closable: Option<bool>,
    pub scroll_top: Option<i32>,
    pub scroll_left: Option<i32>,
    pub client_tab_select: Option<bool>,
    pub hotkeys_id: Option<String>,
    pub access_key: Option<String>,
    pub has_editable_title: Option<bool>,
    pub area_design: Option<String>,
    pub custom_data: Option<String>,
    pub custom_style: Option<String>,
    pub visibility: Option<String>,
}

/// The rendered look of a tray.
#[derive(Clone, Copy, Debug, PartialEq, Eq, Structural)]
#[allow(missing_docs)]
pub enum TrayDesign {
    Transparent,
    Plain,
    Fill,
}

/// The positional record of a tray.
#[derive(Debug, Clone)]
#[allow(missing_docs)]
pub struct TrayLSData {
    pub title: Option<String>,
    pub design: Option<TrayDesign>,
    pub collapsed: Option<bool>,
    pub enabled: Option<bool>,
    pub tooltip: Option<String>,
    pub height: Option<String>,
    pub content_height: Option<String>,
    pub has_option_menu: Option<bool>,
    pub option_menu_id: Option<String>,
    pub has_close_button: Option<bool>,
    pub scrolling_mode: Option<String>,
    pub has_toolbar: Option<bool>,
    pub is_collapsible: Option<bool>,
    pub accessibility_description: Option<String>,
    pub visibility: Option<String>,
    pub default_button_id: Option<String>,
    pub scroll_top: Option<i32>,
    pub scroll_left: Option<i32>,
    pub access_key: Option<String>,
    pub hotkeys_id: Option<String>,
    pub is_drag_handle: Option<bool>,
    pub client_select: Option<bool>,
    pub heading_level: Option<i32>,
    pub custom_data: Option<String>,
    pub custom_style: Option<String>,
}

} // verus!
