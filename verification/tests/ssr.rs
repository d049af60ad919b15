//! Tests of the session-form extraction from raw navigation HTML.

use wdpe::error::BodyError;
use wdpe::ssr::parse_sap_ssr_client;

fn page_with_form(form: &str) -> String {
    format!(
        "<html><head><title>x</title></head><body><form id=\"other\" action=\"/nope\"></form>{}<p>rest</p></body></html>",
        form
    )
}

const SELF_CLOSING_FORM: &str = "<form name=\"sap.client.SsrClient.form\" id=\"sap.client.SsrClient.form\" action=\"/sap/bc/webdynpro/SAP/APP;sap-ext-sid=abc&amp;def\"><input type=\"hidden\" id=\"sap-charset\" value=\"utf-8\"/><input type=\"hidden\" id=\"sap-wd-secure-id\" value=\"sec-42\"><input type=\"hidden\" id=\"fesrAppName\" value=\"APP\"/><input type=\"hidden\" id=\"fesrUseBeacon\" value=\"true\"></form>";

const PAIRED_FORM: &str = "<form name=\"sap.client.SsrClient.form\" id=\"sap.client.SsrClient.form\" action=\"/sap/bc/webdynpro/SAP/APP;sap-ext-sid=abc&amp;def\"><input type=\"hidden\" id=\"sap-charset\" value=\"utf-8\"></input><input type=\"hidden\" id=\"sap-wd-secure-id\" value=\"sec-42\"></input><input type=\"hidden\" id=\"fesrAppName\" value=\"APP\"></input><input type=\"hidden\" id=\"fesrUseBeacon\" value=\"true\"></input></form>";

#[test]
fn extraction_succeeds_on_self_closing_inputs() {
    let client = parse_sap_ssr_client(&page_with_form(SELF_CLOSING_FORM)).unwrap();
    // The action is HTML-entity-decoded; the other fields are verbatim.
    assert_eq!(client.action, "/sap/bc/webdynpro/SAP/APP;sap-ext-sid=abc&def");
    assert_eq!(client.charset, "utf-8");
    assert_eq!(client.wd_secure_id, "sec-42");
    assert_eq!(client.app_name, "APP");
    assert!(client.use_beacon);
}

#[test]
fn self_closing_and_paired_inputs_extract_the_same_fields() {
    let a = parse_sap_ssr_client(&page_with_form(SELF_CLOSING_FORM)).unwrap();
    let b = parse_sap_ssr_client(&page_with_form(PAIRED_FORM)).unwrap();
    assert_eq!(a, b);
}

#[test]
fn the_marker_selects_the_right_form() {
    // The first form on the page is not the session form; the marker, not
    // the position, decides.
    let client = parse_sap_ssr_client(&page_with_form(SELF_CLOSING_FORM)).unwrap();
    assert_eq!(client.app_name, "APP");
}

#[test]
fn a_page_without_the_session_form_is_invalid() {
    let err = parse_sap_ssr_client("<html><body><form action=\"/x\"></form></body></html>")
        .unwrap_err();
    assert_eq!(err, BodyError::Invalid("Cannot find SSR Client form".to_string()));
}

#[test]
fn a_missing_required_field_is_named() {
    let form = "<form id=\"sap.client.SsrClient.form\" action=\"/a\"><input id=\"sap-charset\" value=\"utf-8\"/><input id=\"sap-wd-secure-id\" value=\"sec\"/><input id=\"fesrAppName\" value=\"APP\"/></form>";
    let err = parse_sap_ssr_client(&page_with_form(form)).unwrap_err();
    assert_eq!(
        err,
        BodyError::NoSuchAttribute("'fesrUseBeacon' field of SSR Form".to_string())
    );
}

#[test]
fn beacon_flag_is_true_only_on_the_text_true() {
    let form = "<form id=\"sap.client.SsrClient.form\" action=\"/a\"><input id=\"sap-charset\" value=\"utf-8\"/><input id=\"sap-wd-secure-id\" value=\"sec\"/><input id=\"fesrAppName\" value=\"APP\"/><input id=\"fesrUseBeacon\" value=\"false\"/></form>";
    let client = parse_sap_ssr_client(&page_with_form(form)).unwrap();
    assert!(!client.use_beacon);
}
