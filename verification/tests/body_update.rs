//! Tests of the incremental-update response decoder.

use wdpe::body::{BodyUpdate, BodyUpdateType};
use wdpe::error::UpdateBodyError;

#[test]
fn test_body_update_full_with_script_call() {
    let xml = r#"<updates>
            <full-update windowid="WID1"><content-update id="content1">Hello World</content-update></full-update>
            <script-call>alert('hello');</script-call>
        </updates>"#;

    let update = BodyUpdate::new(xml).unwrap();
    assert!(update.update.is_some());
    assert!(
        matches!(update.update.as_ref().unwrap(), BodyUpdateType::Full(w, c, _) if w == "WID1" && c == "content1")
    );
    assert_eq!(
        update.auxiliary.script_calls.as_deref(),
        Some(["alert('hello');".to_string()].as_slice())
    );
    assert!(update.auxiliary.initialize_ids.is_none());
    assert!(update.auxiliary.model_updates.is_none());
    assert!(update.auxiliary.animation_updates.is_none());
}

#[test]
fn test_body_update_delta_with_auxiliary_nodes() {
    let xml = r#"<updates>
            <delta-update windowid="WID2">
                <control-update id="ctrl1"><content>Updated</content></control-update>
                <script-call>doSomething();</script-call>
            </delta-update>
            <initialize-ids>ID123</initialize-ids>
            <model-update>model_data_1</model-update>
            <model-update>model_data_2</model-update>
            <animation-update>anim_data</animation-update>
        </updates>"#;

    let update = BodyUpdate::new(xml).unwrap();
    assert!(update.update.is_some());
    assert!(matches!(update.update.as_ref().unwrap(), BodyUpdateType::Delta(w, _) if w == "WID2"));
    // script-call inside delta-update + none at top level
    assert_eq!(
        update.auxiliary.script_calls.as_deref(),
        Some(["doSomething();".to_string()].as_slice())
    );
    assert_eq!(update.auxiliary.initialize_ids.as_deref(), Some("ID123"));
    assert_eq!(
        update.auxiliary.model_updates.as_deref(),
        Some(["model_data_1".to_string(), "model_data_2".to_string()].as_slice())
    );
    assert_eq!(
        update.auxiliary.animation_updates.as_deref(),
        Some(["anim_data".to_string()].as_slice())
    );
}

#[test]
fn test_body_update_no_update_node_only_auxiliary() {
    let xml = r#"<updates>
            <script-call>script1();</script-call>
            <script-call>script2();</script-call>
        </updates>"#;

    let update = BodyUpdate::new(xml).unwrap();
    assert!(update.update.is_none());
    assert_eq!(
        update.auxiliary.script_calls.as_deref(),
        Some(["script1();".to_string(), "script2();".to_string()].as_slice())
    );
}

#[test]
fn test_body_update_empty_text_ignored() {
    let xml = r#"<updates>
            <script-call></script-call>
            <initialize-ids></initialize-ids>
            <model-update></model-update>
            <animation-update></animation-update>
        </updates>"#;

    let update = BodyUpdate::new(xml).unwrap();
    assert!(update.update.is_none());
    assert!(update.auxiliary.script_calls.is_none());
    assert!(update.auxiliary.initialize_ids.is_none());
    assert!(update.auxiliary.model_updates.is_none());
    assert!(update.auxiliary.animation_updates.is_none());
}

#[test]
fn test_body_update_accessor() {
    let xml = r#"<updates>
            <script-call>test();</script-call>
            <initialize-ids>INIT1</initialize-ids>
        </updates>"#;

    let update = BodyUpdate::new(xml).unwrap();
    let aux = update.auxiliary();
    assert_eq!(aux.script_calls.as_deref(), Some(["test();".to_string()].as_slice()));
    assert_eq!(aux.initialize_ids.as_deref(), Some("INIT1"));
}

#[test]
fn test_body_update_full_with_auxiliary_nodes_inside() {
    let xml = r#"<updates>
            <full-update windowid="WID1">
                <content-update id="content1">Hello World</content-update>
                <script-call>insideScript();</script-call>
                <initialize-ids>INIT123</initialize-ids>
            </full-update>
            <script-call>outsideScript();</script-call>
        </updates>"#;

    let update = BodyUpdate::new(xml).unwrap();
    assert!(update.update.is_some());
    assert!(
        matches!(update.update.as_ref().unwrap(), BodyUpdateType::Full(w, c, _) if w == "WID1" && c == "content1")
    );
    // Should collect both script-calls: one inside full-update and one outside
    assert_eq!(
        update.auxiliary.script_calls.as_deref(),
        Some(["insideScript();".to_string(), "outsideScript();".to_string()].as_slice())
    );
    assert_eq!(update.auxiliary.initialize_ids.as_deref(), Some("INIT123"));
}

#[test]
fn script_calls_inside_and_outside_full_update_keep_document_order() {
    // One script-call inside the full-update block and one outside it:
    // both are harvested, concatenated in document order, and the last
    // non-empty initialize-ids value wins over an earlier one.
    let xml = r#"<updates>
            <initialize-ids>EARLY</initialize-ids>
            <full-update windowid="W">
                <content-update id="c">X</content-update>
                <script-call>first();</script-call>
                <initialize-ids>LATE</initialize-ids>
                <initialize-ids></initialize-ids>
            </full-update>
            <script-call>second();</script-call>
        </updates>"#;
    let update = BodyUpdate::new(xml).unwrap();
    assert_eq!(
        update.auxiliary.script_calls.as_deref(),
        Some(["first();".to_string(), "second();".to_string()].as_slice())
    );
    // The empty initialize-ids after LATE is ignored, so LATE is the last
    // non-empty value seen.
    assert_eq!(update.auxiliary.initialize_ids.as_deref(), Some("LATE"));
}

#[test]
fn last_update_block_wins() {
    let xml = r#"<updates>
            <full-update windowid="W1"><content-update id="a">A</content-update></full-update>
            <delta-update windowid="W2"><control-update id="c"><content>B</content></control-update></delta-update>
        </updates>"#;
    let update = BodyUpdate::new(xml).unwrap();
    assert!(matches!(update.update.as_ref().unwrap(), BodyUpdateType::Delta(w, _) if w == "W2"));
}

#[test]
fn duplicate_control_ids_last_write_wins() {
    let xml = r#"<updates>
            <delta-update windowid="W">
                <control-update id="C1"><content>old</content></control-update>
                <control-update id="C1"><content>new</content></control-update>
            </delta-update>
        </updates>"#;
    let update = BodyUpdate::new(xml).unwrap();
    match update.update.as_ref().unwrap() {
        BodyUpdateType::Delta(_, controls) => {
            assert_eq!(controls.len(), 1);
            assert_eq!(controls[0].0, "C1");
            assert_eq!(controls[0].1, "new");
        }
        _ => panic!("expected a delta update"),
    }
}

#[test]
fn unknown_child_tags_are_skipped() {
    let xml = r#"<updates>
            <future-thing>whatever</future-thing>
            <delta-update windowid="W">
                <mystery>data</mystery>
                <control-update id="C1"><content>X</content></control-update>
            </delta-update>
        </updates>"#;
    let update = BodyUpdate::new(xml).unwrap();
    match update.update.as_ref().unwrap() {
        BodyUpdateType::Delta(w, controls) => {
            assert_eq!(w, "W");
            assert_eq!(controls.len(), 1);
        }
        _ => panic!("expected a delta update"),
    }
    assert!(update.auxiliary.script_calls.is_none());
}

#[test]
fn malformed_response_is_a_parse_error() {
    let err = BodyUpdate::new("this is <<< not xml").unwrap_err();
    assert_eq!(err, UpdateBodyError::ParseFailed);
}

#[test]
fn full_update_without_windowid_names_the_attribute() {
    let xml = r#"<updates><full-update><content-update id="c">X</content-update></full-update></updates>"#;
    let err = BodyUpdate::new(xml).unwrap_err();
    assert_eq!(
        err,
        UpdateBodyError::NoSuchAttribute {
            node: "full-update".to_string(),
            attribute: "windowid".to_string()
        }
    );
}

#[test]
fn full_update_without_content_update_is_missing_content() {
    let xml = r#"<updates><full-update windowid="W"></full-update></updates>"#;
    let err = BodyUpdate::new(xml).unwrap_err();
    assert_eq!(err, UpdateBodyError::NoSuchContent("full-update".to_string()));
}

#[test]
fn content_update_without_text_is_missing_content() {
    let xml =
        r#"<updates><full-update windowid="W"><content-update id="c"></content-update></full-update></updates>"#;
    let err = BodyUpdate::new(xml).unwrap_err();
    assert_eq!(err, UpdateBodyError::NoSuchContent("content-update".to_string()));
}

#[test]
fn control_update_without_id_names_the_attribute() {
    let xml = r#"<updates><delta-update windowid="W"><control-update><content>X</content></control-update></delta-update></updates>"#;
    let err = BodyUpdate::new(xml).unwrap_err();
    assert_eq!(
        err,
        UpdateBodyError::NoSuchAttribute {
            node: "control-update".to_string(),
            attribute: "id".to_string()
        }
    );
}

#[test]
fn control_update_without_children_is_missing_content() {
    let xml = r#"<updates><delta-update windowid="W"><control-update id="C1"></control-update></delta-update></updates>"#;
    let err = BodyUpdate::new(xml).unwrap_err();
    assert_eq!(err, UpdateBodyError::NoSuchContent("control-update".to_string()));
}

#[test]
fn control_update_content_without_text_is_missing_content() {
    let xml = r#"<updates><delta-update windowid="W"><control-update id="C1"><b><i>deep</i></b></control-update></delta-update></updates>"#;
    let err = BodyUpdate::new(xml).unwrap_err();
    assert_eq!(err, UpdateBodyError::NoSuchContent("content".to_string()));
}
