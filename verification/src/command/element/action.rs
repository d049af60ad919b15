//! Commands over the action widgets.

use vstd::prelude::*;

use crate::element::action::ButtonDef;
use crate::error::EventBuilderError;
use crate::event::ucf_parameters::UcfParameters;
use crate::event::{Event, EventBuilder, EventModel};
use crate::strutil::pairs_view;

verus! {

/// The command that presses one button: it produces the press event for
/// the button the definition names.
#[derive(Debug, Clone)]
pub struct ButtonPressEventCommand {
    /// The definition of the button to press.
    pub element_def: ButtonDef,
}

/// Ghost view of the press event for the button with the given id.
pub open spec fn press_event_model(id: Seq<char>) -> EventModel {
    EventModel {
        control: "Button"@,
        event: "Press"@,
        parameters: seq![("Id"@, id)],
        ucf_parameters: UcfParameters {
            action: None,
            enqueue_cardinality: None,
            response: None,
            delay: None,
        },
        custom_parameters: Seq::empty(),
    }
}

impl ButtonPressEventCommand {
    /// A press command for the given button definition.
    pub fn new(element_def: ButtonDef) -> (r: Self)
        ensures
            r.element_def == element_def,
    {
        ButtonPressEventCommand { element_def }
    }

    /// The press event this command stands for, exactly as
    /// [`press_event_model`] gives it. Always succeeds.
    pub fn press_event(&self) -> (r: Result<Event, EventBuilderError>)
        ensures
            r matches Ok(e) && e@ == press_event_model(self.element_def.id@),
    {
        let mut parameters: Vec<(String, String)> = Vec::new();
        parameters.push(("Id".to_owned(), self.element_def.id.clone()));
        let built = EventBuilder::default().control("Button".to_owned()).event(
            "Press".to_owned(),
        ).parameters(parameters).ucf_parameters(
            UcfParameters { action: None, enqueue_cardinality: None, response: None, delay: None },
        ).custom_parameters(Vec::new()).build();
        match built {
            Ok(e) => {
                proof {
                    assert(e@.parameters =~= press_event_model(self.element_def.id@).parameters);
                    assert(e@.custom_parameters =~= Seq::<(Seq<char>, Seq<char>)>::empty());
                    assert(e@ =~= press_event_model(self.element_def.id@));
                }
                Ok(e)
            },
            Err(e) => {
                proof {
                    assert(false);
                }
                Err(e)
            },
        }
    }
}

} // verus!
