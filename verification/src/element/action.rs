//! Data records of the action widgets: buttons and links.

use vstd::prelude::*;

verus! {

/// The rendered look of a button.
#[derive(Clone, Copy, Debug, PartialEq, Eq, Structural)]
pub enum ButtonDesign {
    /// Visually emphasized.
    Emphasized,
    /// The default look.
    Standard,
    /// A back-navigation button.
    Previous,
    /// A forward-navigation button.
    Next,
    /// Drawn without a background.
    Transparent,
    /// An accepting action.
    Accept,
    /// A rejecting action.
    Reject,
    /// A two-state toggle.
    Toggle,
}

/// The role a button plays.
#[derive(Clone, Copy, Debug, PartialEq, Eq, Structural)]
#[allow(missing_docs)]
pub enum ButtonType {
    Normal,
    Menu,
    Help,
    Personalize,
    Close,
    ExpandAll,
    CollapseAll,
    ScrollTop,
    Minimize,
    Maximize,
    Restore,
    CollapseBegin,
    CollapseEnd,
    ExpandBegin,
    ExpandEnd,
    Back,
    Forward,
    VariantManagement,
    Rte,
}

/// How a button reacts to interaction.
#[derive(Clone, Copy, Debug, PartialEq, Eq, Structural)]
pub enum ButtonInteractionBehaviour {
    /// A plain push button.
    Push,
    /// A two-state toggle.
    Toggle,
}

/// The positional record of a button.
#[derive(Debug, Clone)]
#[allow(missing_docs)]
pub struct ButtonLSData {
    pub text: Option<String>,
    pub text_design: Option<String>,
    pub design: Option<ButtonDesign>,
    pub width: Option<String>,
    pub tooltip: Option<String>,
    pub enabled: Option<bool>,
    pub has_button_caption: Option<bool>,
    pub visibility: Option<String>,
    pub show_help: Option<bool>,
    pub down: Option<bool>,
    pub has_icon: Option<bool>,
    pub disabled_icon_src: Option<String>,
    pub up_icon_src: Option<String>,
    pub down_icon_src: Option<String>,
    pub has_popup_menu: Option<bool>,
    pub popup_menu_id: Option<String>,
    pub has_popup_menu_section: Option<bool>,
    pub image_first: Option<bool>,
    pub access_key: Option<String>,
    pub hotkey: Option<String>,
    pub up: Option<bool>,
    pub text_overflow: Option<bool>,
    pub fixed_height: Option<bool>,
    pub button_type: Option<ButtonType>,
    pub drag_source_info: Option<String>,
    pub semantic_color: Option<String>,
    pub interaction_behaviour: Option<ButtonInteractionBehaviour>,
    pub custom_style: Option<String>,
    pub custom_data: Option<String>,
    pub wrapping: Option<bool>,
    pub height: Option<String>,
    pub content_visibility: Option<String>,
}

/// The positional record of a link.
#[derive(Debug, Clone)]
#[allow(missing_docs)]
pub struct LinkLSData {
    pub tooltip: Option<String>,
    pub text: Option<String>,
    pub has_reference: Option<bool>,
    pub enabled: Option<bool>,
    pub has_link_caption: Option<bool>,
    pub visibility: Option<String>,
    pub label_text: Option<String>,
    pub emphasized: Option<bool>,
    pub access_key: Option<String>,
    pub hotkey: Option<String>,
    pub custom_data: Option<String>,
    pub custom_style: Option<String>,
    pub labelled_by: Option<String>,
}

/// The definition of one button on the page: its stable control id.
#[derive(Debug, Clone, PartialEq, Eq)]
pub struct ButtonDef {
    /// The control id the button is addressed by.
    pub id: String,
}

impl ButtonDef {
    /// A definition for the button with the given control id.
    pub fn new(id: String) -> (r: ButtonDef)
        ensures
            r.id == id,
    {
        ButtonDef { id }
    }
}

} // verus!
