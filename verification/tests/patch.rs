//! Tests of the snapshot patch engine.

use wdpe::body::BodyUpdate;
use wdpe::error::UpdateBodyError;
use wdpe::patch::{apply_delta, apply_full};
use wdpe::state::BaseUrl;

#[test]
fn full_update_leaves_everything_outside_the_target_untouched() {
    let doc = r#"<html><head><title>t</title></head><body><div id="content">old stuff</div><p class="x">tail</p></body></html>"#;
    let out = apply_full(doc, "content", "<b>new</b>").unwrap();
    assert_eq!(
        out,
        r#"<html><head><title>t</title></head><body><div id="content"><b>new</b></div><p class="x">tail</p></body></html>"#
    );
    // Everything before the target's inner content and after it is
    // byte-identical to the input.
    let prefix = r#"<html><head><title>t</title></head><body><div id="content">"#;
    let suffix = r#"</div><p class="x">tail</p></body></html>"#;
    assert!(doc.starts_with(prefix) && out.starts_with(prefix));
    assert!(doc.ends_with(suffix) && out.ends_with(suffix));
}

#[test]
fn delta_update_replaces_each_matched_element_whole() {
    let doc = r#"<div id="W_root_"><span id="C1">one</span><span id="C2">two</span><span id="C3">keep</span></div>"#;
    let controls = vec![
        ("C1".to_string(), r#"<span id="C1">eins</span>"#.to_string()),
        ("C2".to_string(), r#"<span id="C2">zwei</span>"#.to_string()),
    ];
    let out = apply_delta(doc, "W", &controls).unwrap();
    assert_eq!(
        out,
        r#"<div id="W_root_"><span id="C1">eins</span><span id="C2">zwei</span><span id="C3">keep</span></div>"#
    );
    // Exactly the two matched elements were replaced; the old markup of
    // both is gone and the third control is untouched.
    assert_eq!(out.matches("eins").count(), 1);
    assert_eq!(out.matches("zwei").count(), 1);
    assert!(!out.contains(">one<") && !out.contains(">two<"));
    assert!(out.contains(r#"<span id="C3">keep</span>"#));
}

#[test]
fn delta_update_outside_the_window_root_is_skipped() {
    let doc = r#"<div id="other"><span id="C1">one</span></div>"#;
    let controls = vec![("C1".to_string(), "replaced".to_string())];
    let out = apply_delta(doc, "W", &controls).unwrap();
    // No element sits under the window root, so nothing changes.
    assert_eq!(out, doc);
}

#[test]
fn delta_scenario_replaces_the_control_element_verbatim() {
    let response = r#"<updates><delta-update windowid="W"><control-update id="C1"><content>&lt;div id="C1"&gt;X&lt;/div&gt;</content></control-update></delta-update></updates>"#;
    let update = BodyUpdate::new(response).unwrap();
    let doc = r#"<div id="W_root_"><div id="C1">old</div></div>"#;
    let (window, controls) = match update.update.unwrap() {
        wdpe::body::BodyUpdateType::Delta(w, c) => (w, c),
        _ => panic!("expected a delta update"),
    };
    let out = apply_delta(doc, &window, &controls).unwrap();
    assert_eq!(out, r#"<div id="W_root_"><div id="C1">X</div></div>"#);
}

#[test]
fn a_fragment_without_the_id_removes_the_element_identity() {
    // Replacement is of the whole matched element: a plain-text fragment
    // leaves no element with the old id behind.
    let doc = r#"<div id="W_root_"><div id="C1">old</div></div>"#;
    let controls = vec![("C1".to_string(), "X".to_string())];
    let out = apply_delta(doc, "W", &controls).unwrap();
    assert_eq!(out, r#"<div id="W_root_">X</div>"#);
}

#[test]
fn an_unusable_selector_is_a_rewrite_error() {
    let err = apply_full("<div></div>", "bad\"id", "x").unwrap_err();
    assert_eq!(err, UpdateBodyError::RewriteFailed);
}

#[test]
fn base_url_action_urls_combine_scheme_host_and_port() {
    let ssr = wdpe::state::SapSsrClient {
        action: "/sap/bc/webdynpro/SAP/APP".to_string(),
        charset: "utf-8".to_string(),
        wd_secure_id: "sec-id-123".to_string(),
        app_name: "APP".to_string(),
        use_beacon: false,
    };
    let with_port = BaseUrl {
        raw: "https://host.example:8443/sap/".to_string(),
        scheme: "https".to_string(),
        host: Some("host.example".to_string()),
        port: Some(8443),
    };
    assert_eq!(
        ssr.build_action_url(&with_port).unwrap(),
        "https://host.example:8443/sap/bc/webdynpro/SAP/APP"
    );
    let without_port = BaseUrl {
        raw: "https://host.example/sap/".to_string(),
        scheme: "https".to_string(),
        host: Some("host.example".to_string()),
        port: None,
    };
    assert_eq!(
        ssr.build_action_url(&without_port).unwrap(),
        "https://host.example/sap/bc/webdynpro/SAP/APP"
    );
    let hostless = BaseUrl {
        raw: "data:something".to_string(),
        scheme: "data".to_string(),
        host: None,
        port: None,
    };
    assert_eq!(
        ssr.build_action_url(&hostless).unwrap_err(),
        wdpe::error::ClientError::InvalidBaseUrl("data:something".to_string())
    );
}
