//! Tests of event serialization and the event queue.

use wdpe::event::event_queue::{EnqueueEventResult, EventQueue};
use wdpe::event::ucf_parameters::{UcfAction, UcfParametersBuilder, UcfResponseData};
use wdpe::event::EventBuilder;

#[test]
fn event_queue_serialize() {
    let mut parameters = Vec::new();
    parameters.push(("Id".to_string(), "WD0213".to_string()));
    let ucf_params = UcfParametersBuilder::default()
        .response(Some(UcfResponseData::Delta))
        .action(Some(UcfAction::Submit))
        .build()
        .unwrap();
    let event = EventBuilder::default()
        .control("Button".to_owned())
        .event("Press".to_owned())
        .parameters(parameters)
        .ucf_parameters(ucf_params)
        .build()
        .unwrap();
    let mut parameters_two = Vec::new();
    parameters_two.push(("Id".to_string(), "sap.client.SsrClient.form".to_string()));
    parameters_two.push(("Async".to_string(), "false".to_string()));
    parameters_two.push((
        "FocusInfo".to_string(),
        "@{\"sFocussedId\":\"WD0213\"}".to_string(),
    ));
    parameters_two.push(("Hash".to_string(), "".to_string()));
    parameters_two.push(("DomChanged".to_string(), "false".to_string()));
    parameters_two.push(("IsDirty".to_string(), "false".to_string()));
    let ucf_params_two = UcfParametersBuilder::default()
        .response(Some(UcfResponseData::Delta))
        .build()
        .unwrap();
    let event_two = EventBuilder::default()
        .control("Form".to_owned())
        .event("Request".to_owned())
        .parameters(parameters_two)
        .ucf_parameters(ucf_params_two)
        .build()
        .unwrap();
    let mut queue = EventQueue::new();
    queue.add(event);
    queue.add(event_two);
    assert_eq!(queue.serialize_and_clear().len(), "Button_Press~E002Id~E004WD0213~E003~E002ClientAction~E004submit~E005ResponseData~E004delta~E003~E002~E003~E001Form_Request~E002FocusInfo~E004~0040~007B~0022sFocussedId~0022~003A~0022WD0213~0022~007D~E005Id~E004sap.client.SsrClient.form~E005Async~E004false~E005Hash~E004~E005IsDirty~E004false~E005DomChanged~E004false~E003~E002ResponseData~E004delta~E003~E002~E003".len());
}

#[test]
fn serialize_one_event_exact_text() {
    let mut parameters = Vec::new();
    parameters.push(("Id".to_string(), "WD01".to_string()));
    let event = EventBuilder::default()
        .control("Button".to_owned())
        .event("Press".to_owned())
        .parameters(parameters)
        .build()
        .unwrap();
    assert_eq!(
        event.serialize(),
        "Button_Press~E002Id~E004WD01~E003~E002~E003~E002~E003"
    );
}

#[test]
fn escaping_uses_four_digit_uppercase_hex() {
    // A space, a tilde, a BMP character and an astral character are all
    // escaped as `~` plus the padded uppercase hex of the codepoint;
    // letters, digits, `-`, `.` and `_` stay themselves.
    let mut parameters = Vec::new();
    parameters.push(("K".to_string(), "a b~\u{d55c}\u{1f600}A-z._9".to_string()));
    let event = EventBuilder::default()
        .control("C".to_owned())
        .event("E".to_owned())
        .parameters(parameters)
        .build()
        .unwrap();
    assert_eq!(
        event.serialize(),
        "C_E~E002K~E004a~0020b~007E~D55C~1F600A-z._9~E003~E002~E003~E002~E003"
    );
}

#[test]
fn empty_queue_serializes_to_empty_string() {
    let mut queue = EventQueue::new();
    assert_eq!(queue.serialize_and_clear(), "");
}

#[test]
fn two_events_join_with_one_separator_and_no_trailing_one() {
    let make = |control: &str| {
        EventBuilder::default()
            .control(control.to_owned())
            .event("Press".to_owned())
            .build()
            .unwrap()
    };
    let expected = format!("{}~E001{}", make("A").serialize(), make("B").serialize());
    let mut queue = EventQueue::new();
    queue.add(make("A"));
    queue.add(make("B"));
    let serialized = queue.serialize_and_clear();
    assert_eq!(serialized, expected);
    assert!(!serialized.ends_with("~E001"));
}

#[test]
fn add_then_serialize_drains_exactly_in_order() {
    let make = |control: &str| {
        EventBuilder::default()
            .control(control.to_owned())
            .event("Press".to_owned())
            .build()
            .unwrap()
    };
    let mut queue = EventQueue::new();
    queue.add(make("One"));
    queue.add(make("Two"));
    let first = queue.serialize_and_clear();
    assert_eq!(
        first,
        format!("{}~E001{}", make("One").serialize(), make("Two").serialize())
    );
    // The queue is empty afterwards: a second drain is the empty string.
    assert_eq!(queue.serialize_and_clear(), "");
    // And the flush flag is cleared: a batchable event does not flush.
    let quiet = make("Three");
    assert!(matches!(queue.add(quiet), EnqueueEventResult::Enqueued));
}

#[test]
fn submit_event_without_enqueue_sets_the_flush_flag() {
    let ucf = UcfParametersBuilder::default()
        .action(Some(UcfAction::Submit))
        .build()
        .unwrap();
    let event = EventBuilder::default()
        .control("Button".to_owned())
        .event("Press".to_owned())
        .ucf_parameters(ucf)
        .build()
        .unwrap();
    let mut queue = EventQueue::new();
    assert!(matches!(queue.add(event), EnqueueEventResult::ShouldProcess));
    // The flag stays set for later batchable events until the next drain.
    let plain = EventBuilder::default()
        .control("Text".to_owned())
        .event("Change".to_owned())
        .build()
        .unwrap();
    assert!(matches!(queue.add(plain), EnqueueEventResult::ShouldProcess));
}

#[test]
fn serialize_with_form_event_appends_the_synthetic_submit() {
    let mut queue = EventQueue::new();
    let serialized = queue.serialize_and_clear_with_form_event().unwrap();
    assert_eq!(
        serialized,
        "Form_Request~E002Id~E004sap.client.SsrClient.form~E005Async~E004false~E005FocusInfo~E004~E005Hash~E004~E005DomChanged~E004false~E005IsDirty~E004false~E003~E002~E003~E002~E003"
    );
}

#[test]
fn remove_pops_the_head_event() {
    let make = |control: &str| {
        EventBuilder::default()
            .control(control.to_owned())
            .event("Press".to_owned())
            .build()
            .unwrap()
    };
    let mut queue = EventQueue::new();
    assert!(queue.remove().is_none());
    queue.add(make("One"));
    queue.add(make("Two"));
    let head = queue.remove().unwrap();
    assert_eq!(head.serialize(), make("One").serialize());
}

#[test]
fn builder_requires_control_and_event() {
    let err = EventBuilder::default().build().unwrap_err();
    assert_eq!(
        err,
        wdpe::error::EventBuilderError::UninitializedField("control".to_string())
    );
    let err = EventBuilder::default()
        .control("C".to_owned())
        .build()
        .unwrap_err();
    assert_eq!(
        err,
        wdpe::error::EventBuilderError::UninitializedField("event".to_string())
    );
}
