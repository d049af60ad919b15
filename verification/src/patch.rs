//! The snapshot patch engine: selector-directed rewriting of the HTML text.
//!
//! A full update replaces the inner content of the element whose `id` equals
//! the content id; a delta update replaces, whole, every element whose `id`
//! equals a control id nested under the window's root element. All
//! replacements of one update are registered together and applied in a
//! single streaming pass over the text.

use vstd::prelude::*;

use crate::error::{UpdateBodyError, UpdateErrView};
use crate::strutil::pairs_view;

verus! {

/// The text that the streaming rewrite yields when the inner content of
/// every element with id `content_id` in `doc` is replaced by `fragment`,
/// or `None` when the rewrite fails. A function of the three texts alone.
pub uninterp spec fn inner_rewrite(
    doc: Seq<char>,
    content_id: Seq<char>,
    fragment: Seq<char>,
) -> Option<Seq<char>>;

/// The text that the streaming rewrite yields when, for every
/// `(control_id, fragment)` pair, each element with id `control_id` under
/// the element with id `window_root_`-of-`window` in `doc` is replaced
/// whole by its fragment — all pairs in one pass, a pair matching nothing
/// skipped — or `None` when the rewrite fails. A function of the texts
/// alone.
pub uninterp spec fn controls_rewrite(
    doc: Seq<char>,
    window: Seq<char>,
    controls: Seq<(Seq<char>, Seq<char>)>,
) -> Option<Seq<char>>;

/// Relies on `lol_html::rewrite_str` with the one selector `[id="…"]` built
/// from `content_id` and a handler that calls `set_inner_content` with
/// `fragment` as markup: matched elements keep their tags and lose their
/// inner content to the fragment, everything else streams through; the
/// rewrite is deterministic in its three texts.
#[verifier::external_body]
fn rewrite_inner(doc: &str, content_id: &str, fragment: &str) -> (r: Result<
    String,
    UpdateBodyError,
>)
    ensures
        r matches Ok(s) ==> inner_rewrite(doc@, content_id@, fragment@) == Some(s@),
        r is Err ==> inner_rewrite(doc@, content_id@, fragment@) is None,
        r matches Err(e) ==> e@ == UpdateErrView::RewriteFailed,
{
    let sel: lol_html::Selector =
        format!(r#"[id="{}"]"#, content_id).parse().map_err(|_| UpdateBodyError::RewriteFailed)?;
    let h = lol_html::ElementContentHandlers::default().element(
        |el: &mut lol_html::html_content::Element| {
            Ok(el.set_inner_content(fragment, lol_html::html_content::ContentType::Html))
        },
    );
    let settings = lol_html::RewriteStrSettings::new()
        .append_element_content_handler((std::borrow::Cow::Owned(sel), h));
    lol_html::rewrite_str(doc, settings).map_err(|_| UpdateBodyError::RewriteFailed)
}

/// Relies on `lol_html::rewrite_str` with one selector
/// `[id="{window}_root_"] [id="{control}"]` per pair and a handler that
/// calls `replace` with the pair's fragment as markup: matched elements are
/// replaced whole, all handlers run in one streaming pass, and the rewrite
/// is deterministic in its input texts.
#[verifier::external_body]
fn rewrite_controls(doc: &str, window: &str, controls: &Vec<(String, String)>) -> (r: Result<
    String,
    UpdateBodyError,
>)
    ensures
        r matches Ok(s) ==> controls_rewrite(doc@, window@, pairs_view(controls@)) == Some(s@),
        r is Err ==> controls_rewrite(doc@, window@, pairs_view(controls@)) is None,
        r matches Err(e) ==> e@ == UpdateErrView::RewriteFailed,
{
    let mut settings = lol_html::RewriteStrSettings::new();
    for (control_id, fragment) in controls.iter() {
        let sel: lol_html::Selector = format!(r#"[id="{}_root_"] [id="{}"]"#, window, control_id)
            .parse().map_err(|_| UpdateBodyError::RewriteFailed)?;
        let h = lol_html::ElementContentHandlers::default().element(
            move |el: &mut lol_html::html_content::Element| {
                Ok(el.replace(fragment, lol_html::html_content::ContentType::Html))
            },
        );
        settings = settings.append_element_content_handler((std::borrow::Cow::Owned(sel), h));
    }
    lol_html::rewrite_str(doc, settings).map_err(|_| UpdateBodyError::RewriteFailed)
}

/// Applies a full update to a document text: the inner content of the
/// element with id `content_id` becomes `fragment`.
pub fn apply_full(doc: &str, content_id: &str, fragment: &str) -> (r: Result<
    String,
    UpdateBodyError,
>)
    ensures
        r matches Ok(s) ==> inner_rewrite(doc@, content_id@, fragment@) == Some(s@),
        r is Err <==> inner_rewrite(doc@, content_id@, fragment@) is None,
        r matches Err(e) ==> e@ == UpdateErrView::RewriteFailed,
{
    rewrite_inner(doc, content_id, fragment)
}

/// Applies a delta update to a document text: every control element under
/// the window root is replaced whole by its fragment, all in one pass.
pub fn apply_delta(doc: &str, window: &str, controls: &Vec<(String, String)>) -> (r: Result<
    String,
    UpdateBodyError,
>)
    ensures
        r matches Ok(s) ==> controls_rewrite(doc@, window@, pairs_view(controls@)) == Some(s@),
        r is Err <==> controls_rewrite(doc@, window@, pairs_view(controls@)) is None,
        r matches Err(e) ==> e@ == UpdateErrView::RewriteFailed,
{
    rewrite_controls(doc, window, controls)
}

} // verus!
