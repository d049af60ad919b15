//! Tests of the snapshot type and the session controller.

use wdpe::body::{Body, BodyUpdate};
use wdpe::event::EventBuilder;
use wdpe::state::{BaseUrl, WebDynproState};

const PAGE: &str = "<html><body><div id=\"W_root_\"><div id=\"C1\">old</div></div><form id=\"sap.client.SsrClient.form\" action=\"/sap/bc/webdynpro/SAP/APP\"><input id=\"sap-charset\" value=\"utf-8\"/><input id=\"sap-wd-secure-id\" value=\"sec\"/><input id=\"fesrAppName\" value=\"APP\"/><input id=\"fesrUseBeacon\" value=\"false\"/></form></body></html>";

fn base() -> BaseUrl {
    BaseUrl {
        raw: "https://host.example/sap/bc/webdynpro/SAP".to_string(),
        scheme: "https".to_string(),
        host: Some("host.example".to_string()),
        port: None,
    }
}

#[test]
fn body_construction_derives_the_session_record() {
    let body = Body::new(PAGE.to_string()).unwrap();
    assert_eq!(body.raw_body(), PAGE);
    let ssr = body.ssr_client();
    assert_eq!(ssr.action, "/sap/bc/webdynpro/SAP/APP");
    assert_eq!(ssr.charset, "utf-8");
    assert_eq!(ssr.wd_secure_id, "sec");
    assert_eq!(ssr.app_name, "APP");
    assert!(!ssr.use_beacon);
}

#[test]
fn body_construction_fails_without_the_session_form() {
    assert!(Body::new("<html><body>nothing here</body></html>".to_string()).is_err());
}

#[test]
fn client_url_appends_slash_name_and_stable_ids_flag() {
    let body = Body::new(PAGE.to_string()).unwrap();
    let state = WebDynproState::new(base(), "ZAPP".to_string(), body);
    assert_eq!(
        state.client_url(),
        "https://host.example/sap/bc/webdynpro/SAP/ZAPP?sap-wd-stableids=X#"
    );
}

#[test]
fn client_url_keeps_an_existing_trailing_slash() {
    let body = Body::new(PAGE.to_string()).unwrap();
    let with_slash = BaseUrl {
        raw: "https://host.example/sap/".to_string(),
        scheme: "https".to_string(),
        host: Some("host.example".to_string()),
        port: None,
    };
    let state = WebDynproState::new(with_slash, "ZAPP".to_string(), body);
    assert_eq!(
        state.client_url(),
        "https://host.example/sap/ZAPP?sap-wd-stableids=X#"
    );
}

#[test]
fn mutate_body_applies_a_delta_and_keeps_the_session_record() {
    let body = Body::new(PAGE.to_string()).unwrap();
    let mut state = WebDynproState::new(base(), "ZAPP".to_string(), body);
    let response = r#"<updates><delta-update windowid="W"><control-update id="C1"><content>&lt;div id="C1"&gt;patched&lt;/div&gt;</content></control-update></delta-update></updates>"#;
    let update = BodyUpdate::new(response).unwrap();
    let aux = state.mutate_body(update).unwrap();
    assert!(aux.script_calls.is_none());
    assert!(state.body().raw_body().contains(r#"<div id="C1">patched</div>"#));
    assert!(!state.body().raw_body().contains("old"));
    // The session record is untouched by the patch.
    assert_eq!(state.body().ssr_client().app_name, "APP");
}

#[test]
fn mutate_body_without_an_update_is_a_no_op() {
    let body = Body::new(PAGE.to_string()).unwrap();
    let mut state = WebDynproState::new(base(), "ZAPP".to_string(), body);
    let update = BodyUpdate::new("<updates><script-call>go();</script-call></updates>").unwrap();
    let aux = state.mutate_body(update).unwrap();
    assert_eq!(aux.script_calls.as_deref(), Some(["go();".to_string()].as_slice()));
    assert_eq!(state.body().raw_body(), PAGE);
}

#[test]
fn state_queues_and_drains_events() {
    let body = Body::new(PAGE.to_string()).unwrap();
    let mut state = WebDynproState::new(base(), "ZAPP".to_string(), body);
    let event = EventBuilder::default()
        .control("Button".to_owned())
        .event("Press".to_owned())
        .build()
        .unwrap();
    let expected = event.serialize();
    state.add_event(event);
    assert_eq!(state.serialize_and_clear(), expected);
    assert_eq!(state.serialize_and_clear(), "");
}

#[test]
fn state_serialize_with_form_event_is_never_empty() {
    let body = Body::new(PAGE.to_string()).unwrap();
    let mut state = WebDynproState::new(base(), "ZAPP".to_string(), body);
    let serialized = state.serialize_and_clear_with_form_event().unwrap();
    assert!(serialized.starts_with("Form_Request"));
}

#[test]
fn press_command_builds_the_press_event() {
    let def = wdpe::element::action::ButtonDef::new("WD0213".to_string());
    let command = wdpe::command::element::action::ButtonPressEventCommand::new(def);
    let event = command.press_event().unwrap();
    assert_eq!(
        event.serialize(),
        "Button_Press~E002Id~E004WD0213~E003~E002~E003~E002~E003"
    );
}
