//! Extraction of the session record from the raw navigation document.
//!
//! The document is scanned, tolerant of malformed markup, for `<form>`
//! spans; the span carrying the known session marker is the session form.
//! Its unclosed or self-closing `<input>` tags are normalized into paired
//! tags so the fragment parses as a tree; the form's `action` attribute and
//! the children's `id`/`value` pairs then resolve the five required fields.

use vstd::prelude::*;

use crate::error::{BodyErrView, BodyError};
use crate::state::{SapSsrClient, SsrClientModel};
use crate::strutil::{
    chars_of, contains_seq, find_occ, find_sub, lemma_find_occ_props, match_at, occurs_at,
    push_all, push_str_chars, str_eq, string_of, subvec,
};
use crate::xml::{XmlNode, attr_of, parse_xml, xml_doc_of};

verus! {

/// The marker that identifies the session form among all forms.
pub open spec fn marker() -> Seq<char> {
    "sap.client.SsrClient.form"@
}

/// Word characters for the scanner's boundary checks: ASCII letters,
/// digits and the underscore.
pub open spec fn is_word_char(c: char) -> bool {
    ||| 48 <= (c as u32) <= 57
    ||| 65 <= (c as u32) <= 90
    ||| 97 <= (c as u32) <= 122
    ||| (c as u32) == 95
}

/// Where a form span that opens at `i` (an occurrence of `<form`) ends: a
/// word character directly after the opening breaks the match; otherwise
/// the tag runs to the first `>`, and the span to the end of the first
/// `</form>` after it. `None` when any of these is missing.
pub open spec fn form_match_end(s: Seq<char>, i: int) -> Option<int> {
    if i + 5 < s.len() && is_word_char(s[i + 5]) {
        None
    } else {
        match find_occ(s, ">"@, i + 5) {
            None => None,
            Some(g) => match find_occ(s, "</form>"@, g + 1) {
                None => None,
                Some(j) => Some(j + 7),
            },
        }
    }
}

/// The first form span at or after `from` whose text contains the session
/// marker. Spans are scanned left to right and do not overlap: after a
/// complete span without the marker, the scan resumes at its end.
pub open spec fn session_form_at(s: Seq<char>, from: int) -> Option<(int, int)>
    decreases s.len() + 1 - from,
    via session_form_at_dec
{
    if from < 0 || from + 5 > s.len() {
        None
    } else if occurs_at(s, "<form"@, from) {
        match form_match_end(s, from) {
            Some(e) => if contains_seq(s.subrange(from, e), marker()) {
                Some((from, e))
            } else {
                session_form_at(s, e)
            },
            None => session_form_at(s, from + 1),
        }
    } else {
        session_form_at(s, from + 1)
    }
}

#[via_fn]
proof fn session_form_at_dec(s: Seq<char>, from: int) {
    if !(from < 0 || from + 5 > s.len()) && occurs_at(s, "<form"@, from) {
        if let Some(g) = find_occ(s, ">"@, from + 5) {
            lemma_find_occ_props(s, ">"@, from + 5);
            if let Some(j) = find_occ(s, "</form>"@, g + 1) {
                lemma_find_occ_props(s, "</form>"@, g + 1);
                reveal_strlit("</form>");
                reveal_strlit(">");
            }
        }
    }
}

/// The text with every `</input>` occurrence removed, scanning from `i`.
pub open spec fn strip_close_from(s: Seq<char>, i: int) -> Seq<char>
    decreases s.len() - i,
    via strip_close_from_dec
{
    if i < 0 || i >= s.len() {
        Seq::empty()
    } else if occurs_at(s, "</input>"@, i) {
        strip_close_from(s, i + 8)
    } else {
        seq![s[i]] + strip_close_from(s, i + 1)
    }
}

#[via_fn]
proof fn strip_close_from_dec(s: Seq<char>, i: int) {
    if !(i < 0 || i >= s.len()) && occurs_at(s, "</input>"@, i) {
        reveal_strlit("</input>");
    }
}

/// The text with every `<input …>` or `<input …/>` opening rewritten into
/// a paired `<input …></input>`, scanning from `i`. The tag's attribute
/// text runs to the first `>`; a `/` directly before it is dropped.
pub open spec fn expand_from(s: Seq<char>, i: int) -> Seq<char>
    decreases s.len() + 1 - i,
    via expand_from_dec
{
    if i < 0 || i >= s.len() {
        Seq::empty()
    } else if occurs_at(s, "<input"@, i) && (i + 6 >= s.len() || !is_word_char(s[i + 6])) {
        match find_occ(s, ">"@, i + 6) {
            None => seq![s[i]] + expand_from(s, i + 1),
            Some(g) => s.subrange(
                i,
                if g - 1 >= i + 6 && s[g - 1] == '/' {
                    g - 1
                } else {
                    g
                },
            ) + "></input>"@ + expand_from(s, g + 1),
        }
    } else {
        seq![s[i]] + expand_from(s, i + 1)
    }
}

#[via_fn]
proof fn expand_from_dec(s: Seq<char>, i: int) {
    if !(i < 0 || i >= s.len()) && occurs_at(s, "<input"@, i) && (i + 6 >= s.len()
        || !is_word_char(s[i + 6])) {
        if let Some(g) = find_occ(s, ">"@, i + 6) {
            lemma_find_occ_props(s, ">"@, i + 6);
            reveal_strlit(">");
        }
    }
}

/// The session form's text, normalized: pre-existing `</input>` closings
/// removed, then every input opening rewritten into a paired tag.
pub open spec fn normalize_form(s: Seq<char>) -> Seq<char> {
    expand_from(strip_close_from(s, 0), 0)
}

/// The first element among the nodes, in order.
pub open spec fn first_element_of(cs: Seq<XmlNode>) -> Option<XmlNode>
    decreases cs.len(),
{
    if cs.len() == 0 {
        None
    } else if cs[0].kind is Element {
        Some(cs[0])
    } else {
        first_element_of(cs.drop_first())
    }
}

/// The `value` attribute of the last element child whose `id` attribute
/// equals `key` and which carries a `value` attribute at all.
pub open spec fn field_lookup(cs: Seq<XmlNode>, key: Seq<char>) -> Option<Seq<char>>
    decreases cs.len(),
{
    if cs.len() == 0 {
        None
    } else {
        let last = cs[cs.len() - 1];
        if last.kind is Element && attr_of(last, "id"@) == Some(key) && attr_of(last, "value"@)
            is Some {
            attr_of(last, "value"@)
        } else {
            field_lookup(cs.drop_last(), key)
        }
    }
}

/// One resolved field of the form: the children's `id`/`value` mapping,
/// last write per id winning; the key `action` falls back to the form's
/// own `action` attribute.
pub open spec fn resolved_field(form: XmlNode, key: Seq<char>) -> Option<Seq<char>> {
    match field_lookup(form.children@, key) {
        Some(v) => Some(v),
        None => if key == "action"@ {
            attr_of(form, "action"@)
        } else {
            None
        },
    }
}

/// What the outside HTML-entity decoder yields for a text. A function of
/// the text alone.
pub uninterp spec fn html_decoded(s: Seq<char>) -> Seq<char>;

/// Decodes HTML entities in a text.
///
/// Relies on `html_escape::decode_html_entities`: the decoded text is a
/// deterministic function of the input text.
#[verifier::external_body]
fn decode_entities(s: &str) -> (r: String)
    ensures
        r@ == html_decoded(s@),
{
    html_escape::decode_html_entities(s).to_string()
}

/// The session record carried by a parsed, normalized session form: the
/// five required fields resolved in order, the action entity-decoded, the
/// beacon flag true exactly on the text `true`; the first missing field
/// names the error.
pub open spec fn parse_form_tree(root: XmlNode) -> Result<SsrClientModel, BodyErrView> {
    match first_element_of(root.children@) {
        None => Err(BodyErrView::Invalid("Cannot parse SSR Client form"@)),
        Some(form) => match resolved_field(form, "action"@) {
            None => Err(BodyErrView::MissingField("'action' field of SSR Form"@)),
            Some(action_raw) => match resolved_field(form, "sap-charset"@) {
                None => Err(BodyErrView::MissingField("'sap-charset' field of SSR Form"@)),
                Some(charset) => match resolved_field(form, "sap-wd-secure-id"@) {
                    None => Err(
                        BodyErrView::MissingField("'sap-wd-secure-id' field of SSR Form"@),
                    ),
                    Some(secure) => match resolved_field(form, "fesrAppName"@) {
                        None => Err(BodyErrView::MissingField("'fesrAppName' field of SSR Form"@)),
                        Some(app) => match resolved_field(form, "fesrUseBeacon"@) {
                            None => Err(
                                BodyErrView::MissingField("'fesrUseBeacon' field of SSR Form"@),
                            ),
                            Some(beacon) => Ok(
                                SsrClientModel {
                                    action: html_decoded(action_raw),
                                    charset: charset,
                                    wd_secure_id: secure,
                                    app_name: app,
                                    use_beacon: beacon == "true"@,
                                },
                            ),
                        },
                    },
                },
            },
        },
    }
}

/// The session record of a whole navigation document: the marker-carrying
/// form span, normalized and parsed as a tree, resolved by
/// [`parse_form_tree`]; a document without such a span, or whose
/// normalized form does not parse, is invalid.
pub open spec fn ssr_client_of(doc: Seq<char>) -> Result<SsrClientModel, BodyErrView> {
    match session_form_at(doc, 0) {
        None => Err(BodyErrView::Invalid("Cannot find SSR Client form"@)),
        Some((i, e)) => match xml_doc_of(normalize_form(doc.subrange(i, e))) {
            None => Err(BodyErrView::Invalid("Cannot parse SSR Client form"@)),
            Some(root) => parse_form_tree(root),
        },
    }
}

proof fn lemma_session_step(s: Seq<char>, from: int)
    requires
        0 <= from,
        !occurs_at(s, "<form"@, from),
    ensures
        session_form_at(s, from) == session_form_at(s, from + 1),
{
    if from + 5 > s.len() {
        assert(session_form_at(s, from) is None);
        assert(session_form_at(s, from + 1) is None);
    }
}

proof fn lemma_session_skip(s: Seq<char>, from: int, to: int)
    requires
        0 <= from <= to,
        forall|p: int| from <= p < to ==> !occurs_at(s, "<form"@, p),
    ensures
        session_form_at(s, from) == session_form_at(s, to),
    decreases to - from,
{
    if from < to {
        lemma_session_step(s, from);
        lemma_session_skip(s, from + 1, to);
    }
}

proof fn lemma_session_none(s: Seq<char>, from: int)
    requires
        0 <= from,
        forall|p: int| from <= p ==> !occurs_at(s, "<form"@, p),
    ensures
        session_form_at(s, from) is None,
    decreases s.len() + 1 - from,
{
    if !(from + 5 > s.len()) {
        lemma_session_step(s, from);
        lemma_session_none(s, from + 1);
    }
}

/// Exec counterpart of [`is_word_char`].
fn is_word(c: char) -> (r: bool)
    ensures
        r == is_word_char(c),
{
    let n = c as u32;
    (48 <= n && n <= 57) || (65 <= n && n <= 90) || (97 <= n && n <= 122) || n == 95
}

/// Finds the session form span at or after `from`, as [`session_form_at`]
/// describes it.
fn find_session_form(cs: &Vec<char>, from: usize) -> (r: Option<(usize, usize)>)
    ensures
        match r {
            Some(p) => session_form_at(cs@, from as int) == Some((p.0 as int, p.1 as int)) && p.0
                <= p.1 && p.1 <= cs@.len(),
            None => session_form_at(cs@, from as int) is None,
        },
    decreases cs@.len() + 1 - from,
{
    proof {
        reveal_strlit("<form");
        reveal_strlit(">");
        reveal_strlit("</form>");
    }
    let n = cs.len();
    let form_open = chars_of("<form");
    let i = match find_sub(cs, &form_open, from) {
        None => {
            proof {
                lemma_find_occ_props(cs@, "<form"@, from as int);
                lemma_session_none(cs@, from as int);
            }
            return None;
        },
        Some(i) => i,
    };
    proof {
        lemma_find_occ_props(cs@, "<form"@, from as int);
        lemma_session_skip(cs@, from as int, i as int);
        assert(i + 5 <= cs@.len());
    }
    // The candidate at `i` is a real `<form` occurrence; test its span.
    if i + 5 < n && is_word(cs[i + 5]) {
        proof {
            assert(form_match_end(cs@, i as int) is None);
        }
        return find_session_form(cs, i + 1);
    }
    let gt = chars_of(">");
    let g = match find_sub(cs, &gt, i + 5) {
        None => {
            proof {
                assert(form_match_end(cs@, i as int) is None);
            }
            return find_session_form(cs, i + 1);
        },
        Some(g) => g,
    };
    proof {
        lemma_find_occ_props(cs@, ">"@, i as int + 5);
        assert(g + 1 <= cs@.len());
    }
    let close = chars_of("</form>");
    let j = match find_sub(cs, &close, g + 1) {
        None => {
            proof {
                assert(form_match_end(cs@, i as int) is None);
            }
            return find_session_form(cs, i + 1);
        },
        Some(j) => j,
    };
    proof {
        lemma_find_occ_props(cs@, "</form>"@, g as int + 1);
    }
    let e = j + 7;
    let span = subvec(cs, i, e);
    let mk = chars_of("sap.client.SsrClient.form");
    proof {
        reveal_strlit("sap.client.SsrClient.form");
        assert(form_match_end(cs@, i as int) == Some(e as int));
    }
    match find_sub(&span, &mk, 0) {
        Some(_) => {
            proof {
                assert(contains_seq(cs@.subrange(i as int, e as int), marker()));
                assert(session_form_at(cs@, i as int) == Some((i as int, e as int)));
            }
            Some((i, e))
        },
        None => {
            proof {
                assert(!contains_seq(cs@.subrange(i as int, e as int), marker()));
                assert(session_form_at(cs@, i as int) == session_form_at(cs@, e as int));
            }
            find_session_form(cs, e)
        },
    }
}

/// Removes every `</input>` occurrence, as [`strip_close_from`] describes.
fn strip_close_tags(cs: &Vec<char>) -> (r: Vec<char>)
    ensures
        r@ == strip_close_from(cs@, 0),
{
    proof {
        reveal_strlit("</input>");
    }
    let pat = chars_of("</input>");
    let mut out: Vec<char> = Vec::new();
    let mut i: usize = 0;
    while i < cs.len()
        invariant
            pat@ == "</input>"@,
            pat@.len() == 8,
            i <= cs@.len(),
            out@ + strip_close_from(cs@, i as int) == strip_close_from(cs@, 0),
        decreases cs@.len() - i,
    {
        let ghost pre = out@;
        if cs.len() - i >= 8 && match_at(cs, &pat, i) {
            proof {
                assert(occurs_at(cs@, "</input>"@, i as int));
            }
            i += 8;
        } else {
            proof {
                assert(!occurs_at(cs@, "</input>"@, i as int));
            }
            out.push(cs[i]);
            proof {
                assert(out@ =~= pre + seq![cs@[i as int]]);
                assert(out@ + strip_close_from(cs@, i as int + 1) =~= pre + (seq![cs@[i as int]]
                    + strip_close_from(cs@, i as int + 1)));
            }
            i += 1;
        }
    }
    proof {
        assert(strip_close_from(cs@, cs@.len() as int) =~= Seq::<char>::empty());
        assert(out@ + Seq::<char>::empty() =~= out@);
    }
    out
}

/// Rewrites input openings into paired tags, as [`expand_from`] describes.
fn expand_input_tags(cs: &Vec<char>) -> (r: Vec<char>)
    ensures
        r@ == expand_from(cs@, 0),
{
    proof {
        reveal_strlit("<input");
        reveal_strlit(">");
        reveal_strlit("></input>");
    }
    let pat = chars_of("<input");
    let gt = chars_of(">");
    let mut out: Vec<char> = Vec::new();
    let mut i: usize = 0;
    while i < cs.len()
        invariant
            pat@ == "<input"@,
            gt@ == ">"@,
            pat@.len() == 6,
            gt@.len() == 1,
            i <= cs@.len(),
            out@ + expand_from(cs@, i as int) == expand_from(cs@, 0),
        decreases cs@.len() - i,
    {
        let ghost pre = out@;
        let is_open = cs.len() - i >= 6 && match_at(cs, &pat, i) && (i + 6 >= cs.len() || !is_word(
            cs[i + 6],
        ));
        if is_open {
            match find_sub(cs, &gt, i + 6) {
                None => {
                    proof {
                        assert(find_occ(cs@, ">"@, i as int + 6) is None);
                    }
                    out.push(cs[i]);
                    proof {
                        assert(out@ =~= pre + seq![cs@[i as int]]);
                        assert(out@ + expand_from(cs@, i as int + 1) =~= pre + (
                        seq![cs@[i as int]] + expand_from(cs@, i as int + 1)));
                    }
                    i += 1;
                },
                Some(g) => {
                    proof {
                        lemma_find_occ_props(cs@, ">"@, i as int + 6);
                    }
                    let cut: usize = if g >= i + 7 && cs[g - 1] == '/' {
                        g - 1
                    } else {
                        g
                    };
                    let part = subvec(cs, i, cut);
                    push_all(&mut out, &part);
                    push_str_chars(&mut out, "></input>");
                    proof {
                        assert(out@ =~= pre + (cs@.subrange(i as int, cut as int) + "></input>"@));
                        assert(expand_from(cs@, i as int) == cs@.subrange(i as int, cut as int)
                            + "></input>"@ + expand_from(cs@, g as int + 1));
                        assert(out@ + expand_from(cs@, g as int + 1) =~= pre + (cs@.subrange(
                            i as int,
                            cut as int,
                        ) + "></input>"@ + expand_from(cs@, g as int + 1)));
                    }
                    i = g + 1;
                },
            }
        } else {
            proof {
                assert(!(occurs_at(cs@, "<input"@, i as int) && (i as int + 6 >= cs@.len()
                    || !is_word_char(cs@[i as int + 6]))));
            }
            out.push(cs[i]);
            proof {
                assert(out@ =~= pre + seq![cs@[i as int]]);
                assert(out@ + expand_from(cs@, i as int + 1) =~= pre + (seq![cs@[i as int]]
                    + expand_from(cs@, i as int + 1)));
            }
            i += 1;
        }
    }
    proof {
        assert(expand_from(cs@, cs@.len() as int) =~= Seq::<char>::empty());
        assert(out@ + Seq::<char>::empty() =~= out@);
    }
    out
}

/// The first element child of the root, if any.
fn first_element(root: &XmlNode) -> (r: Option<&XmlNode>)
    ensures
        match r {
            Some(f) => first_element_of(root.children@) == Some(*f),
            None => first_element_of(root.children@) is None,
        },
{
    let n = root.children.len();
    let mut i: usize = 0;
    proof {
        assert(root.children@.skip(0) =~= root.children@);
    }
    while i < n
        invariant
            n == root.children@.len(),
            i <= n,
            first_element_of(root.children@) == first_element_of(root.children@.skip(i as int)),
        decreases n - i,
    {
        proof {
            assert(root.children@.skip(i as int)[0] == root.children@[i as int]);
            assert(root.children@.skip(i as int).drop_first() =~= root.children@.skip(i as int + 1));
        }
        let child = &root.children[i];
        match child.kind {
            crate::xml::XmlNodeKind::Element => {
                return Some(child);
            },
            _ => {},
        }
        i += 1;
    }
    proof {
        assert(root.children@.skip(n as int).len() == 0);
    }
    None
}

/// The last-wins `id`/`value` resolution over the form's children, as
/// [`field_lookup`] describes.
fn lookup_children<'a>(form: &'a XmlNode, key: &str) -> (r: Option<&'a String>)
    ensures
        match r {
            Some(v) => field_lookup(form.children@, key@) == Some(v@),
            None => field_lookup(form.children@, key@) is None,
        },
{
    let mut j: usize = form.children.len();
    proof {
        assert(form.children@.take(form.children@.len() as int) =~= form.children@);
    }
    while j > 0
        invariant
            j <= form.children@.len(),
            field_lookup(form.children@, key@) == field_lookup(
                form.children@.take(j as int),
                key@,
            ),
        decreases j,
    {
        let ghost taken = form.children@.take(j as int);
        proof {
            assert(taken.len() == j);
            assert(taken[j - 1] == form.children@[j - 1]);
            assert(taken.drop_last() =~= form.children@.take(j as int - 1));
        }
        let child = &form.children[j - 1];
        let mut matched = false;
        match child.kind {
            crate::xml::XmlNodeKind::Element => {
                if let Some(idv) = child.attribute("id") {
                    if str_eq(idv.as_str(), key) {
                        matched = true;
                    }
                }
            },
            _ => {},
        }
        if matched {
            if let Some(val) = child.attribute("value") {
                return Some(val);
            }
        }
        j -= 1;
    }
    proof {
        assert(form.children@.take(0).len() == 0);
    }
    None
}

/// Extracts the session record from the raw navigation document, exactly
/// as [`ssr_client_of`] describes: the marker-identified form span is
/// normalized, parsed, and resolved into the five required fields, and the
/// first thing missing names the error.
pub fn parse_sap_ssr_client(document: &str) -> (r: Result<SapSsrClient, BodyError>)
    ensures
        r matches Ok(c) ==> ssr_client_of(document@) == Ok::<_, BodyErrView>(c@),
        r matches Err(e) ==> ssr_client_of(document@) == Err::<SsrClientModel, _>(e@),
{
    proof {
        reveal_strlit("action");
        reveal_strlit("sap-charset");
        reveal_strlit("sap-wd-secure-id");
        reveal_strlit("fesrAppName");
        reveal_strlit("fesrUseBeacon");
        assert("action"@.len() == 6);
        assert("sap-charset"@.len() == 11);
        assert("sap-wd-secure-id"@.len() == 16);
        assert("fesrAppName"@.len() == 11);
        assert("fesrUseBeacon"@.len() == 13);
        assert("sap-charset"@ != "action"@);
        assert("sap-wd-secure-id"@ != "action"@);
        assert("fesrAppName"@ != "action"@);
        assert("fesrUseBeacon"@ != "action"@);
    }
    let cs = chars_of(document);
    let (start, end) = match find_session_form(&cs, 0) {
        Some(p) => p,
        None => {
            return Err(BodyError::Invalid("Cannot find SSR Client form".to_owned()));
        },
    };
    let span = subvec(&cs, start, end);
    let stripped = strip_close_tags(&span);
    let expanded = expand_input_tags(&stripped);
    let norm = string_of(&expanded);
    let root = match parse_xml(norm.as_str()) {
        Some(t) => t,
        None => {
            return Err(BodyError::Invalid("Cannot parse SSR Client form".to_owned()));
        },
    };
    let form = match first_element(&root) {
        Some(f) => f,
        None => {
            return Err(BodyError::Invalid("Cannot parse SSR Client form".to_owned()));
        },
    };
    let action_raw: String = match lookup_children(form, "action") {
        Some(v) => v.clone(),
        None => {
            match form.attribute("action") {
                Some(v) => v.clone(),
                None => {
                    return Err(BodyError::NoSuchAttribute("'action' field of SSR Form".to_owned()));
                },
            }
        },
    };
    let charset: String = match lookup_children(form, "sap-charset") {
        Some(v) => v.clone(),
        None => {
            return Err(BodyError::NoSuchAttribute("'sap-charset' field of SSR Form".to_owned()));
        },
    };
    let wd_secure_id: String = match lookup_children(form, "sap-wd-secure-id") {
        Some(v) => v.clone(),
        None => {
            return Err(
                BodyError::NoSuchAttribute("'sap-wd-secure-id' field of SSR Form".to_owned()),
            );
        },
    };
    let app_name: String = match lookup_children(form, "fesrAppName") {
        Some(v) => v.clone(),
        None => {
            return Err(BodyError::NoSuchAttribute("'fesrAppName' field of SSR Form".to_owned()));
        },
    };
    let beacon_txt: String = match lookup_children(form, "fesrUseBeacon") {
        Some(v) => v.clone(),
        None => {
            return Err(BodyError::NoSuchAttribute("'fesrUseBeacon' field of SSR Form".to_owned()));
        },
    };
    let use_beacon = str_eq(beacon_txt.as_str(), "true");
    let action = decode_entities(action_raw.as_str());
    let client = SapSsrClient { action, charset, wd_secure_id, app_name, use_beacon };
    proof {
        assert(ssr_client_of(document@) matches Ok(m) && m =~= client@);
    }
    Ok(client)
}

// --- The normalization law: input closing style does not matter ---------
/// The opening of one input element: the tag name, its attribute text, and
/// either a plain `>` (to be paired later) or a self-closing `/>`.
pub open spec fn input_head(attrs: Seq<char>, paired: bool) -> Seq<char> {
    if paired {
        "<input"@ + attrs + ">"@
    } else {
        "<input"@ + attrs + "/>"@
    }
}

/// One rendered input element: the opening, and for the paired style an
/// explicit closing tag.
pub open spec fn input_tag(attrs: Seq<char>, paired: bool) -> Seq<char> {
    if paired {
        input_head(attrs, true) + "</input>"@
    } else {
        input_head(attrs, false)
    }
}

/// The canonical paired form every input normalizes to.
pub open spec fn input_canon(attrs: Seq<char>) -> Seq<char> {
    "<input"@ + attrs + "></input>"@
}

/// A list of rendered inputs, concatenated in order.
pub open spec fn inputs_render(items: Seq<(Seq<char>, bool)>) -> Seq<char>
    decreases items.len(),
{
    if items.len() == 0 {
        Seq::empty()
    } else {
        input_tag(items[0].0, items[0].1) + inputs_render(items.drop_first())
    }
}

/// The same list with only the openings, closings dropped.
pub open spec fn inputs_heads(items: Seq<(Seq<char>, bool)>) -> Seq<char>
    decreases items.len(),
{
    if items.len() == 0 {
        Seq::empty()
    } else {
        input_head(items[0].0, items[0].1) + inputs_heads(items.drop_first())
    }
}

/// The same list in canonical paired form.
pub open spec fn inputs_canon(items: Seq<(Seq<char>, bool)>) -> Seq<char>
    decreases items.len(),
{
    if items.len() == 0 {
        Seq::empty()
    } else {
        input_canon(items[0].0) + inputs_canon(items.drop_first())
    }
}

/// Attribute text that keeps an input tag well-shaped: no angle brackets,
/// no word character directly after the tag name, and no trailing slash
/// that would merge with the closing delimiter.
pub open spec fn attrs_ok(attrs: Seq<char>) -> bool {
    &&& forall|k: int| 0 <= k < attrs.len() ==> attrs[k] != '<' && attrs[k] != '>'
    &&& attrs.len() == 0 || !is_word_char(attrs[0])
    &&& attrs.len() == 0 || attrs[attrs.len() - 1] != '/'
}

proof fn lemma_not_close_at(s: Seq<char>, p: int)
    requires
        p + 8 <= s.len() && 0 <= p ==> s[p] != '<' || s[p + 1] != '/' || s[p + 2] != 'i',
    ensures
        !occurs_at(s, "</input>"@, p),
{
    reveal_strlit("</input>");
    if 0 <= p && p + 8 <= s.len() {
        if occurs_at(s, "</input>"@, p) {
            assert(s.subrange(p, p + 8)[0] == s[p]);
            assert(s.subrange(p, p + 8)[1] == s[p + 1]);
            assert(s.subrange(p, p + 8)[2] == s[p + 2]);
        }
    }
}

proof fn lemma_not_input_at(s: Seq<char>, p: int)
    requires
        p + 6 <= s.len() && 0 <= p ==> s[p] != '<' || s[p + 1] != 'i',
    ensures
        !occurs_at(s, "<input"@, p),
{
    reveal_strlit("<input");
    if 0 <= p && p + 6 <= s.len() {
        if occurs_at(s, "<input"@, p) {
            assert(s.subrange(p, p + 6)[0] == s[p]);
            assert(s.subrange(p, p + 6)[1] == s[p + 1]);
        }
    }
}

proof fn lemma_strip_plain(s: Seq<char>, i: int, j: int)
    requires
        0 <= i <= j <= s.len(),
        forall|p: int| i <= p < j ==> !occurs_at(s, "</input>"@, p),
    ensures
        strip_close_from(s, i) == s.subrange(i, j) + strip_close_from(s, j),
    decreases j - i,
{
    if i == j {
        assert(s.subrange(i, i) + strip_close_from(s, i) =~= strip_close_from(s, i));
    } else {
        lemma_strip_plain(s, i + 1, j);
        assert(strip_close_from(s, i) == seq![s[i]] + strip_close_from(s, i + 1));
        assert(seq![s[i]] + (s.subrange(i + 1, j) + strip_close_from(s, j)) =~= s.subrange(i, j)
            + strip_close_from(s, j));
    }
}

/// Whether an input opening (with its boundary) begins at `p`.
pub open spec fn input_open_at(s: Seq<char>, p: int) -> bool {
    occurs_at(s, "<input"@, p) && (p + 6 >= s.len() || !is_word_char(s[p + 6]))
}

proof fn lemma_expand_plain(s: Seq<char>, i: int, j: int)
    requires
        0 <= i <= j <= s.len(),
        forall|p: int| i <= p < j ==> !input_open_at(s, p),
    ensures
        expand_from(s, i) == s.subrange(i, j) + expand_from(s, j),
    decreases j - i,
{
    if i == j {
        assert(s.subrange(i, i) + expand_from(s, i) =~= expand_from(s, i));
    } else {
        lemma_expand_plain(s, i + 1, j);
        assert(!input_open_at(s, i));
        assert(expand_from(s, i) == seq![s[i]] + expand_from(s, i + 1));
        assert(seq![s[i]] + (s.subrange(i + 1, j) + expand_from(s, j)) =~= s.subrange(i, j)
            + expand_from(s, j));
    }
}

proof fn lemma_find_occ_exact(s: Seq<char>, needle: Seq<char>, from: int, g: int)
    requires
        0 <= from <= g,
        occurs_at(s, needle, g),
        forall|p: int| from <= p < g ==> !occurs_at(s, needle, p),
    ensures
        find_occ(s, needle, from) == Some(g),
    decreases g - from,
{
    if from < g {
        lemma_find_occ_exact(s, needle, from + 1, g);
    }
}

proof fn lemma_gt_at(s: Seq<char>, p: int)
    ensures
        occurs_at(s, ">"@, p) <==> (0 <= p && p + 1 <= s.len() && s[p] == '>'),
{
    reveal_strlit(">");
    if 0 <= p && p + 1 <= s.len() {
        assert(s.subrange(p, p + 1) =~= seq![s[p]]);
        if s[p] == '>' {
            assert(s.subrange(p, p + 1) =~= ">"@);
        } else {
            assert(s.subrange(p, p + 1)[0] != ">"@[0]);
        }
    }
}

proof fn lemma_strip_inputs(t: Seq<char>, pos: int, items: Seq<(Seq<char>, bool)>)
    requires
        0 <= pos <= t.len(),
        forall|k: int| 0 <= k < items.len() ==> attrs_ok(#[trigger] items[k].0),
        t.skip(pos) == inputs_render(items) + "</form>"@,
    ensures
        strip_close_from(t, pos) == inputs_heads(items) + "</form>"@,
    decreases items.len(),
{
    reveal_strlit("</form>");
    reveal_strlit("</input>");
    reveal_strlit("<input");
    reveal_strlit(">");
    reveal_strlit("/>");
    let rest = t.skip(pos);
    assert(forall|k: int| 0 <= k < rest.len() ==> rest[k] == t[pos + k]);
    if items.len() == 0 {
        assert(rest =~= "</form>"@);
        assert(t.len() == pos + 7);
        assert forall|p: int| pos <= p < t.len() implies !occurs_at(t, "</input>"@, p) by {
            lemma_not_close_at(t, p);
        }
        lemma_strip_plain(t, pos, t.len() as int);
        assert(strip_close_from(t, t.len() as int) =~= Seq::<char>::empty());
        assert(t.subrange(pos, t.len() as int) =~= rest);
        assert(rest + Seq::<char>::empty() =~= rest);
        assert(inputs_heads(items) + "</form>"@ =~= "</form>"@);
    } else {
        let a = items[0].0;
        let b = items[0].1;
        assert(attrs_ok(a));
        let tag = input_tag(a, b);
        let head = input_head(a, b);
        let tail = inputs_render(items.drop_first()) + "</form>"@;
        assert(rest =~= tag + tail);
        assert(forall|k: int| 0 <= k < tag.len() ==> rest[k] == tag[k]);
        // Character layout of the rendered input.
        assert(forall|k: int| 0 <= k < 6 ==> tag[k] == "<input"@[k]);
        assert(forall|k: int| 6 <= k < 6 + a.len() ==> tag[k] == a[k - 6]);
        let hl = head.len() as int;
        assert(hl == if b { 7 + a.len() } else { 8 + a.len() });
        assert(forall|k: int| 0 <= k < hl ==> tag[k] == head[k]);
        if b {
            assert(head[hl - 1] == '>');
            assert(forall|k: int| 0 <= k < 8 ==> tag[hl + k] == "</input>"@[k]);
        } else {
            assert(tag[hl - 2] == '/' && tag[hl - 1] == '>');
        }
        // No closing tag begins inside the head.
        assert forall|p: int| pos <= p < pos + hl implies !occurs_at(t, "</input>"@, p) by {
            let q = p - pos;
            assert(rest[q] == t[pos + q]);
            assert(rest[q] == tag[q]);
            if q == 0 {
                assert(rest[1] == t[pos + 1]);
                assert(rest[1] == tag[1]);
                assert(t[p + 1] == 'i');
            } else if q < 6 {
                assert(tag[q] == "<input"@[q]);
                assert(t[p] != '<');
            } else if q < 6 + a.len() {
                assert(tag[q] == a[q - 6]);
                assert(t[p] != '<');
            } else {
                assert(t[p] == '/' || t[p] == '>');
            }
            lemma_not_close_at(t, p);
        }
        lemma_strip_plain(t, pos, pos + hl);
        assert(t.subrange(pos, pos + hl) =~= head);
        let next = pos + tag.len() as int;
        if b {
            // The explicit closing tag is removed.
            assert(t.subrange(pos + hl, pos + hl + 8) =~= "</input>"@);
            assert(occurs_at(t, "</input>"@, pos + hl));
            assert(strip_close_from(t, pos + hl) == strip_close_from(t, pos + hl + 8));
            assert(next == pos + hl + 8);
        } else {
            assert(next == pos + hl);
        }
        assert(t.len() == pos + rest.len());
        assert forall|k: int| 0 <= k < tail.len() implies t.skip(next)[k] == tail[k] by {
            assert(t.skip(next)[k] == t[next + k]);
            assert(rest[tag.len() + k] == t[pos + (tag.len() as int + k)]);
            assert(rest[tag.len() + k] == tail[k]);
        }
        assert(t.skip(next) =~= tail);
        assert forall|k: int| 0 <= k < items.drop_first().len() implies attrs_ok(
            #[trigger] items.drop_first()[k].0,
        ) by {
            assert(items.drop_first()[k] == items[k + 1]);
        }
        lemma_strip_inputs(t, next, items.drop_first());
        assert(head + (inputs_heads(items.drop_first()) + "</form>"@) =~= inputs_heads(items)
            + "</form>"@);
    }
}

proof fn lemma_expand_heads(t: Seq<char>, pos: int, items: Seq<(Seq<char>, bool)>)
    requires
        0 <= pos <= t.len(),
        forall|k: int| 0 <= k < items.len() ==> attrs_ok(#[trigger] items[k].0),
        t.skip(pos) == inputs_heads(items) + "</form>"@,
    ensures
        expand_from(t, pos) == inputs_canon(items) + "</form>"@,
    decreases items.len(),
{
    reveal_strlit("</form>");
    reveal_strlit("<input");
    reveal_strlit(">");
    reveal_strlit("/>");
    reveal_strlit("></input>");
    let rest = t.skip(pos);
    assert(forall|k: int| 0 <= k < rest.len() ==> rest[k] == t[pos + k]);
    if items.len() == 0 {
        assert(rest =~= "</form>"@);
        assert(t.len() == pos + 7);
        assert forall|p: int| pos <= p < t.len() implies !input_open_at(t, p) by {
            let q = p - pos;
            assert(rest[q] == t[pos + q]);
            if q == 0 {
                assert(rest[1] == t[pos + 1]);
                assert(t[p + 1] == '/');
            } else if q == 1 && p + 6 <= t.len() {
                assert(t[p] == '/');
            }
            lemma_not_input_at(t, p);
        }
        lemma_expand_plain(t, pos, t.len() as int);
        assert(expand_from(t, t.len() as int) =~= Seq::<char>::empty());
        assert(t.subrange(pos, t.len() as int) =~= rest);
        assert(rest + Seq::<char>::empty() =~= rest);
        assert(inputs_canon(items) + "</form>"@ =~= "</form>"@);
    } else {
        let a = items[0].0;
        let b = items[0].1;
        assert(attrs_ok(a));
        let head = input_head(a, b);
        let hl = head.len() as int;
        assert(hl == if b { 7 + a.len() } else { 8 + a.len() });
        let tail = inputs_heads(items.drop_first()) + "</form>"@;
        assert(rest =~= head + tail);
        assert(forall|k: int| 0 <= k < head.len() ==> rest[k] == head[k]);
        assert(forall|k: int| 0 <= k < 6 ==> head[k] == "<input"@[k]);
        assert(forall|k: int| 6 <= k < 6 + a.len() ==> head[k] == a[k - 6]);
        assert(forall|k: int| 0 <= k < head.len() ==> t[pos + k] == head[k]);
        // The opening matches at `pos`.
        assert(t.subrange(pos, pos + 6) =~= "<input"@);
        assert(occurs_at(t, "<input"@, pos));
        if a.len() > 0 {
            assert(rest[6] == t[pos + 6]);
            assert(rest[6] == head[6]);
            assert(head[6] == a[0]);
            assert(!is_word_char(t[pos + 6]));
        } else {
            assert(rest[6] == t[pos + 6]);
            assert(rest[6] == head[6]);
            assert(head[6] == '>' || head[6] == '/');
            assert(!is_word_char(t[pos + 6]));
        }
        assert(input_open_at(t, pos));
        // The first `>` closes the opening.
        let g = pos + hl - 1;
        assert(t[g] == head[hl - 1] == '>');
        lemma_gt_at(t, g);
        assert forall|p: int| pos + 6 <= p < g implies !occurs_at(t, ">"@, p) by {
            let q = p - pos;
            assert(rest[q] == t[pos + q]);
            if q < 6 + a.len() {
                assert(head[q] == a[q - 6]);
                assert(t[p] != '>');
            } else {
                assert(t[p] == '/');
            }
            lemma_gt_at(t, p);
        }
        lemma_find_occ_exact(t, ">"@, pos + 6, g);
        // The rewritten opening keeps exactly the tag and attribute text.
        let cut: int = if g - 1 >= pos + 6 && t[g - 1] == '/' {
            g - 1
        } else {
            g
        };
        if b {
            if a.len() > 0 {
                assert(rest[hl - 2] == t[pos + (hl - 2)]);
                assert(rest[hl - 2] == head[hl - 2]);
                assert(head[hl - 2] == a[a.len() - 1]);
                assert(t[g - 1] != '/');
            }
            assert(cut == g);
        } else {
            assert(t[g - 1] == head[hl - 2] == '/');
            assert(cut == g - 1);
        }
        assert(t.subrange(pos, cut) =~= "<input"@ + a);
        assert(expand_from(t, pos) == t.subrange(pos, cut) + "></input>"@ + expand_from(t, g + 1));
        let next = pos + hl;
        assert(g + 1 == next);
        assert(t.len() == pos + rest.len());
        assert forall|k: int| 0 <= k < tail.len() implies t.skip(next)[k] == tail[k] by {
            assert(t.skip(next)[k] == t[next + k]);
            assert(rest[head.len() + k] == t[pos + (head.len() as int + k)]);
            assert(rest[head.len() + k] == tail[k]);
        }
        assert(t.skip(next) =~= tail);
        assert forall|k: int| 0 <= k < items.drop_first().len() implies attrs_ok(
            #[trigger] items.drop_first()[k].0,
        ) by {
            assert(items.drop_first()[k] == items[k + 1]);
        }
        lemma_expand_heads(t, next, items.drop_first());
        assert(("<input"@ + a) + "></input>"@ + (inputs_canon(items.drop_first()) + "</form>"@)
            =~= inputs_canon(items) + "</form>"@);
    }
}

/// One rendered session form: the form opening with its attribute text,
/// the rendered inputs, and the closing tag.
pub open spec fn form_render(fattrs: Seq<char>, items: Seq<(Seq<char>, bool)>) -> Seq<char> {
    "<form"@ + fattrs + ">"@ + inputs_render(items) + "</form>"@
}

/// Normalization erases the closing style of every input: a form whose
/// inputs are written self-closing, unclosed, or explicitly paired — in
/// any mixture — normalizes to the one canonical text in which every
/// input is a paired `<input …></input>`. Hence everything derived from
/// the normalized form, the parsed tree and the resolved session fields
/// included, is the same whichever style the server used.
pub proof fn lemma_normalize_ignores_closing_style(fattrs: Seq<char>, items: Seq<(Seq<char>, bool)>)
    requires
        forall|k: int| 0 <= k < fattrs.len() ==> fattrs[k] != '<' && fattrs[k] != '>',
        fattrs.len() == 0 || !is_word_char(fattrs[0]),
        forall|k: int| 0 <= k < items.len() ==> attrs_ok(#[trigger] items[k].0),
    ensures
        normalize_form(form_render(fattrs, items)) == "<form"@ + fattrs + ">"@ + inputs_canon(
            items,
        ) + "</form>"@,
{
    reveal_strlit("<form");
    reveal_strlit(">");
    reveal_strlit("</form>");
    let t = form_render(fattrs, items);
    let h = 6 + fattrs.len() as int;
    let opening = "<form"@ + fattrs + ">"@;
    assert(opening.len() == h);
    assert(forall|k: int| 0 <= k < 5 ==> opening[k] == "<form"@[k]);
    assert(forall|k: int| 5 <= k < 5 + fattrs.len() ==> opening[k] == fattrs[k - 5]);
    assert(opening[h - 1] == '>');
    assert(forall|k: int| 0 <= k < h ==> t[k] == opening[k]);
    // Phase one: stripping touches nothing in the opening.
    assert forall|p: int| 0 <= p < h implies !occurs_at(t, "</input>"@, p) by {
        reveal_strlit("</input>");
        if p == 0 {
            assert(t[1] == opening[1]);
            assert(t[1] == 'f');
        } else if p < 5 {
            assert(t[p] == "<form"@[p]);
            assert(t[p] != '<');
        } else if p < 5 + fattrs.len() {
            assert(t[p] == fattrs[p - 5]);
            assert(t[p] != '<');
        } else {
            assert(t[p] == '>');
        }
        lemma_not_close_at(t, p);
    }
    lemma_strip_plain(t, 0, h);
    assert(t.len() == opening.len() + (inputs_render(items) + "</form>"@).len());
    assert forall|k: int| 0 <= k < (inputs_render(items) + "</form>"@).len() implies t.skip(h)[k]
        == (inputs_render(items) + "</form>"@)[k] by {
        assert(t.skip(h)[k] == t[h + k]);
        assert(t[h + k] == (inputs_render(items) + "</form>"@)[k]);
    }
    assert(t.skip(h) =~= inputs_render(items) + "</form>"@);
    lemma_strip_inputs(t, h, items);
    assert(t.subrange(0, h) =~= opening);
    let u = opening + (inputs_heads(items) + "</form>"@);
    assert(strip_close_from(t, 0) == u);
    // Phase two: expansion touches nothing in the opening either.
    assert(forall|k: int| 0 <= k < h ==> u[k] == opening[k]);
    assert forall|p: int| 0 <= p < h implies !input_open_at(u, p) by {
        reveal_strlit("<input");
        if p == 0 {
            assert(u[1] == opening[1]);
            assert(u[1] == 'f');
        } else if p < 5 {
            assert(u[p] == "<form"@[p]);
            assert(u[p] != '<');
        } else if p < 5 + fattrs.len() {
            assert(u[p] == fattrs[p - 5]);
            assert(u[p] != '<');
        } else {
            assert(u[p] == '>');
        }
        lemma_not_input_at(u, p);
    }
    lemma_expand_plain(u, 0, h);
    assert forall|k: int| 0 <= k < (inputs_heads(items) + "</form>"@).len() implies u.skip(h)[k]
        == (inputs_heads(items) + "</form>"@)[k] by {
        assert(u.skip(h)[k] == u[h + k]);
        assert(u[h + k] == (inputs_heads(items) + "</form>"@)[k]);
    }
    assert(u.skip(h) =~= inputs_heads(items) + "</form>"@);
    lemma_expand_heads(u, h, items);
    assert(u.subrange(0, h) =~= opening);
    assert(normalize_form(t) == opening + (inputs_canon(items) + "</form>"@));
    assert(opening + (inputs_canon(items) + "</form>"@) =~= "<form"@ + fattrs + ">"@
        + inputs_canon(items) + "</form>"@);
}

/// The closing style of the inputs is invisible after normalization: two
/// renderings of the session form that agree on the form's and every
/// input's attribute text, and differ only in which inputs are written
/// self-closing and which explicitly paired, normalize to the same text —
/// so the tree parsed from the normalized form, and the session fields
/// resolved from it, agree as well.
pub proof fn lemma_closing_style_extracts_equally(
    fattrs: Seq<char>,
    items1: Seq<(Seq<char>, bool)>,
    items2: Seq<(Seq<char>, bool)>,
)
    requires
        forall|k: int| 0 <= k < fattrs.len() ==> fattrs[k] != '<' && fattrs[k] != '>',
        fattrs.len() == 0 || !is_word_char(fattrs[0]),
        forall|k: int| 0 <= k < items1.len() ==> attrs_ok(#[trigger] items1[k].0),
        items1.len() == items2.len(),
        forall|k: int| 0 <= k < items1.len() ==> items1[k].0 == #[trigger] items2[k].0,
    ensures
        normalize_form(form_render(fattrs, items1)) == normalize_form(form_render(fattrs, items2)),
{
    assert forall|k: int| 0 <= k < items2.len() implies attrs_ok(#[trigger] items2[k].0) by {
        assert(items2[k].0 == items1[k].0);
    }
    lemma_normalize_ignores_closing_style(fattrs, items1);
    lemma_normalize_ignores_closing_style(fattrs, items2);
    lemma_canon_depends_on_attrs_only(items1, items2);
}

proof fn lemma_canon_depends_on_attrs_only(
    items1: Seq<(Seq<char>, bool)>,
    items2: Seq<(Seq<char>, bool)>,
)
    requires
        items1.len() == items2.len(),
        forall|k: int| 0 <= k < items1.len() ==> items1[k].0 == #[trigger] items2[k].0,
    ensures
        inputs_canon(items1) == inputs_canon(items2),
    decreases items1.len(),
{
    if items1.len() > 0 {
        assert forall|k: int| 0 <= k < items1.drop_first().len() implies items1.drop_first()[k].0
            == #[trigger] items2.drop_first()[k].0 by {
            assert(items1.drop_first()[k] == items1[k + 1]);
            assert(items2.drop_first()[k] == items2[k + 1]);
        }
        lemma_canon_depends_on_attrs_only(items1.drop_first(), items2.drop_first());
        assert(items1[0].0 == items2[0].0);
    }
}

} // verus!
