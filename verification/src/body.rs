//! Decoding of the server's incremental `<updates>` response.
//!
//! One response yields at most one update — a full window replacement or a
//! set of per-control replacements — plus four optional auxiliary payloads
//! (script calls, one initialize-ids value, model updates, animation
//! updates). The decoding walks the parsed element tree in document order;
//! its result is pinned, node for node, by the spec functions below.

use vstd::prelude::*;

use crate::error::{BodyErrView, BodyError, UpdateBodyError, UpdateErrView};
use crate::patch::{apply_delta, apply_full, controls_rewrite, inner_rewrite};
use crate::ssr::{parse_sap_ssr_client, ssr_client_of};
use crate::state::{SapSsrClient, SsrClientModel};
use crate::strutil::{pairs_view, strs_view};
use crate::xml::{XmlNode, attr_of, is_elem_named, parse_xml, text_of, xml_doc_of};

verus! {

/// Ghost view of one decoded update.
#[verifier::ext_equal]
pub enum UpdateModel {
    /// The whole content under one window is replaced by one fragment.
    Full { window: Seq<char>, content: Seq<char>, fragment: Seq<char> },
    /// Named controls under one window are each replaced by a fragment.
    Delta { window: Seq<char>, controls: Seq<(Seq<char>, Seq<char>)> },
}

/// Ghost accumulator of the auxiliary payloads while a response is decoded.
#[verifier::ext_equal]
pub struct AuxAcc {
    /// Script calls seen so far, in document order.
    pub scripts: Seq<Seq<char>>,
    /// The last non-empty initialize-ids value seen so far.
    pub init_id: Option<Seq<char>>,
    /// Model updates seen so far, in document order.
    pub models: Seq<Seq<char>>,
    /// Animation updates seen so far, in document order.
    pub anims: Seq<Seq<char>>,
}

/// Ghost view of the normalized auxiliary payload: every collection that
/// ended up empty is absent.
#[verifier::ext_equal]
pub struct AuxPayloadModel {
    /// Script calls, absent when none were collected.
    pub script_calls: Option<Seq<Seq<char>>>,
    /// Last non-empty initialize-ids value, if any.
    pub initialize_ids: Option<Seq<char>>,
    /// Model updates, absent when none were collected.
    pub model_updates: Option<Seq<Seq<char>>>,
    /// Animation updates, absent when none were collected.
    pub animation_updates: Option<Seq<Seq<char>>>,
}

/// Ghost view of a decoded response.
#[verifier::ext_equal]
pub struct BodyUpdateModel {
    /// The update, if the response carried one.
    pub update: Option<UpdateModel>,
    /// The normalized auxiliary payload.
    pub aux: AuxPayloadModel,
}

/// The empty auxiliary accumulator.
pub open spec fn aux_init() -> AuxAcc {
    AuxAcc { scripts: Seq::empty(), init_id: None, models: Seq::empty(), anims: Seq::empty() }
}

/// The node's text when present and non-empty.
pub open spec fn nonempty_text(n: XmlNode) -> Option<Seq<char>> {
    match text_of(n) {
        Some(t) => if t.len() > 0 {
            Some(t)
        } else {
            None
        },
        None => None,
    }
}

/// Whether the node is one of the four auxiliary elements.
pub open spec fn is_aux(n: XmlNode) -> bool {
    ||| is_elem_named(n, "script-call"@)
    ||| is_elem_named(n, "initialize-ids"@)
    ||| is_elem_named(n, "model-update"@)
    ||| is_elem_named(n, "animation-update"@)
}

/// How one node changes the auxiliary accumulator: a non-empty script-call,
/// model-update or animation-update text appends to its list; a non-empty
/// initialize-ids text replaces the single value; every other node, and
/// every empty text, changes nothing.
pub open spec fn aux_step(a: AuxAcc, n: XmlNode) -> AuxAcc {
    if is_elem_named(n, "script-call"@) {
        match nonempty_text(n) {
            Some(t) => AuxAcc { scripts: a.scripts.push(t), ..a },
            None => a,
        }
    } else if is_elem_named(n, "initialize-ids"@) {
        match nonempty_text(n) {
            Some(t) => AuxAcc { init_id: Some(t), ..a },
            None => a,
        }
    } else if is_elem_named(n, "model-update"@) {
        match nonempty_text(n) {
            Some(t) => AuxAcc { models: a.models.push(t), ..a },
            None => a,
        }
    } else if is_elem_named(n, "animation-update"@) {
        match nonempty_text(n) {
            Some(t) => AuxAcc { anims: a.anims.push(t), ..a },
            None => a,
        }
    } else {
        a
    }
}

/// Inserts or replaces the value for key `k`: the first entry with that key
/// keeps its position and takes the new value; a new key is appended.
pub open spec fn upsert(
    s: Seq<(Seq<char>, Seq<char>)>,
    k: Seq<char>,
    v: Seq<char>,
) -> Seq<(Seq<char>, Seq<char>)>
    decreases s.len(),
{
    if s.len() == 0 {
        seq![(k, v)]
    } else if s[0].0 == k {
        seq![(k, v)] + s.drop_first()
    } else {
        seq![s[0]] + upsert(s.drop_first(), k, v)
    }
}

/// One child of a `full-update` block: a `content-update` must carry an `id`
/// attribute and text content and becomes the (single, last-wins) content
/// pair; any other node only feeds the auxiliary accumulator.
pub open spec fn full_step(
    st: (Option<(Seq<char>, Seq<char>)>, AuxAcc),
    n: XmlNode,
) -> Result<(Option<(Seq<char>, Seq<char>)>, AuxAcc), UpdateErrView> {
    if is_elem_named(n, "content-update"@) {
        match attr_of(n, "id"@) {
            None => Err(
                UpdateErrView::MissingAttr { node: "content-update"@, attribute: "id"@ },
            ),
            Some(id) => match text_of(n) {
                None => Err(UpdateErrView::MissingContent("content-update"@)),
                Some(t) => Ok((Some((id, t)), st.1)),
            },
        }
    } else {
        Ok((st.0, aux_step(st.1, n)))
    }
}

/// Folds [`full_step`] over the children of a `full-update` block.
pub open spec fn fold_full(
    nodes: Seq<XmlNode>,
    st: (Option<(Seq<char>, Seq<char>)>, AuxAcc),
) -> Result<(Option<(Seq<char>, Seq<char>)>, AuxAcc), UpdateErrView>
    decreases nodes.len(),
{
    if nodes.len() == 0 {
        Ok(st)
    } else {
        match full_step(st, nodes[0]) {
            Err(e) => Err(e),
            Ok(st2) => fold_full(nodes.drop_first(), st2),
        }
    }
}

/// A whole `full-update` block: its `windowid` attribute is required, its
/// children are folded, and the content pair is required at the end.
pub open spec fn do_full(n: XmlNode, a: AuxAcc) -> Result<(UpdateModel, AuxAcc), UpdateErrView> {
    match attr_of(n, "windowid"@) {
        None => Err(UpdateErrView::MissingAttr { node: "full-update"@, attribute: "windowid"@ }),
        Some(w) => match fold_full(n.children@, (None, a)) {
            Err(e) => Err(e),
            Ok((content, a2)) => match content {
                None => Err(UpdateErrView::MissingContent("full-update"@)),
                Some((cid, txt)) => Ok(
                    (UpdateModel::Full { window: w, content: cid, fragment: txt }, a2),
                ),
            },
        },
    }
}

/// One child of a `delta-update` block: a `control-update` must carry an
/// `id` attribute, a first child, and text on that child; the pair is
/// upserted into the control map. Any other node only feeds the auxiliary
/// accumulator.
pub open spec fn delta_step(
    st: (Seq<(Seq<char>, Seq<char>)>, AuxAcc),
    n: XmlNode,
) -> Result<(Seq<(Seq<char>, Seq<char>)>, AuxAcc), UpdateErrView> {
    if is_elem_named(n, "control-update"@) {
        match attr_of(n, "id"@) {
            None => Err(
                UpdateErrView::MissingAttr { node: "control-update"@, attribute: "id"@ },
            ),
            Some(id) => if n.children@.len() == 0 {
                Err(UpdateErrView::MissingContent("control-update"@))
            } else {
                match text_of(n.children@[0]) {
                    None => Err(UpdateErrView::MissingContent("content"@)),
                    Some(t) => Ok((upsert(st.0, id, t), st.1)),
                }
            },
        }
    } else {
        Ok((st.0, aux_step(st.1, n)))
    }
}

/// Folds [`delta_step`] over the children of a `delta-update` block.
pub open spec fn fold_delta(
    nodes: Seq<XmlNode>,
    st: (Seq<(Seq<char>, Seq<char>)>, AuxAcc),
) -> Result<(Seq<(Seq<char>, Seq<char>)>, AuxAcc), UpdateErrView>
    decreases nodes.len(),
{
    if nodes.len() == 0 {
        Ok(st)
    } else {
        match delta_step(st, nodes[0]) {
            Err(e) => Err(e),
            Ok(st2) => fold_delta(nodes.drop_first(), st2),
        }
    }
}

/// A whole `delta-update` block: its `windowid` attribute is required, then
/// its children are folded into the control map.
pub open spec fn do_delta(n: XmlNode, a: AuxAcc) -> Result<(UpdateModel, AuxAcc), UpdateErrView> {
    match attr_of(n, "windowid"@) {
        None => Err(
            UpdateErrView::MissingAttr { node: "delta-update"@, attribute: "windowid"@ },
        ),
        Some(w) => match fold_delta(n.children@, (Seq::empty(), a)) {
            Err(e) => Err(e),
            Ok((controls, a2)) => Ok(
                (UpdateModel::Delta { window: w, controls }, a2),
            ),
        },
    }
}

/// One direct child of the `<updates>` container: an update block (last one
/// wins), an auxiliary node, or anything else (skipped).
pub open spec fn top_step(
    st: (Option<UpdateModel>, AuxAcc),
    n: XmlNode,
) -> Result<(Option<UpdateModel>, AuxAcc), UpdateErrView> {
    if is_elem_named(n, "full-update"@) {
        match do_full(n, st.1) {
            Err(e) => Err(e),
            Ok((u, a)) => Ok((Some(u), a)),
        }
    } else if is_elem_named(n, "delta-update"@) {
        match do_delta(n, st.1) {
            Err(e) => Err(e),
            Ok((u, a)) => Ok((Some(u), a)),
        }
    } else {
        Ok((st.0, aux_step(st.1, n)))
    }
}

/// Folds [`top_step`] over the children of the `<updates>` container.
pub open spec fn fold_top(
    nodes: Seq<XmlNode>,
    st: (Option<UpdateModel>, AuxAcc),
) -> Result<(Option<UpdateModel>, AuxAcc), UpdateErrView>
    decreases nodes.len(),
{
    if nodes.len() == 0 {
        Ok(st)
    } else {
        match top_step(st, nodes[0]) {
            Err(e) => Err(e),
            Ok(st2) => fold_top(nodes.drop_first(), st2),
        }
    }
}

/// Normalizes the accumulator: collections that stayed empty become absent.
pub open spec fn normalize_aux(a: AuxAcc) -> AuxPayloadModel {
    AuxPayloadModel {
        script_calls: if a.scripts.len() == 0 {
            None
        } else {
            Some(a.scripts)
        },
        initialize_ids: a.init_id,
        model_updates: if a.models.len() == 0 {
            None
        } else {
            Some(a.models)
        },
        animation_updates: if a.anims.len() == 0 {
            None
        } else {
            Some(a.anims)
        },
    }
}

/// Decodes a whole parsed response tree: the first top-level node is the
/// `<updates>` container (required), and its children are folded.
pub open spec fn parse_update_doc(root: XmlNode) -> Result<BodyUpdateModel, UpdateErrView> {
    if root.children@.len() == 0 {
        Err(UpdateErrView::MissingNode("<updates>"@))
    } else {
        match fold_top(root.children@[0].children@, (None, aux_init())) {
            Err(e) => Err(e),
            Ok((u, a)) => Ok(BodyUpdateModel { update: u, aux: normalize_aux(a) }),
        }
    }
}

/// Decodes a response text: the tree the XML parser yields for it, folded by
/// [`parse_update_doc`]; a text that does not parse is malformed.
pub open spec fn parse_response(s: Seq<char>) -> Result<BodyUpdateModel, UpdateErrView> {
    match xml_doc_of(s) {
        None => Err(UpdateErrView::ParseFailed),
        Some(root) => parse_update_doc(root),
    }
}

/// One decoded update: either a full window replacement or a map of
/// per-control replacements (keys unique, insertion order kept).
#[derive(Debug)]
pub enum BodyUpdateType {
    /// Window id, content id, and the replacement fragment.
    Full(String, String, String),
    /// Window id and the control id → fragment map.
    Delta(String, Vec<(String, String)>),
}

impl View for BodyUpdateType {
    type V = UpdateModel;

    open spec fn view(&self) -> UpdateModel {
        match self {
            BodyUpdateType::Full(w, c, f) => UpdateModel::Full {
                window: w@,
                content: c@,
                fragment: f@,
            },
            BodyUpdateType::Delta(w, m) => UpdateModel::Delta {
                window: w@,
                controls: pairs_view(m@),
            },
        }
    }
}

/// The auxiliary payload returned alongside an applied update.
#[derive(Debug, Clone)]
pub struct BodyUpdateResult {
    /// Script calls, in document order; absent when none.
    pub script_calls: Option<Vec<String>>,
    /// Last non-empty initialize-ids value, if any.
    pub initialize_ids: Option<String>,
    /// Model updates, in document order; absent when none.
    pub model_updates: Option<Vec<String>>,
    /// Animation updates, in document order; absent when none.
    pub animation_updates: Option<Vec<String>>,
}

impl View for BodyUpdateResult {
    type V = AuxPayloadModel;

    open spec fn view(&self) -> AuxPayloadModel {
        AuxPayloadModel {
            script_calls: match self.script_calls {
                Some(v) => Some(strs_view(v@)),
                None => None,
            },
            initialize_ids: match self.initialize_ids {
                Some(s) => Some(s@),
                None => None,
            },
            model_updates: match self.model_updates {
                Some(v) => Some(strs_view(v@)),
                None => None,
            },
            animation_updates: match self.animation_updates {
                Some(v) => Some(strs_view(v@)),
                None => None,
            },
        }
    }
}

/// A decoded response: at most one update plus the auxiliary payload.
#[derive(Debug)]
pub struct BodyUpdate {
    /// The update, if the response carried one.
    pub update: Option<BodyUpdateType>,
    /// The auxiliary payload.
    pub auxiliary: BodyUpdateResult,
}

impl View for BodyUpdate {
    type V = BodyUpdateModel;

    open spec fn view(&self) -> BodyUpdateModel {
        BodyUpdateModel {
            update: match self.update {
                Some(u) => Some(u@),
                None => None,
            },
            aux: self.auxiliary@,
        }
    }
}

/// An empty vector becomes absent; a non-empty one is kept.
pub fn non_empty(v: Vec<String>) -> (r: Option<Vec<String>>)
    ensures
        v@.len() == 0 ==> r is None,
        v@.len() > 0 ==> r == Some::<Vec<String>>(v),
{
    if v.is_empty() {
        None
    } else {
        Some(v)
    }
}

/// Collected auxiliary payloads, before normalization.
struct AuxCollect {
    scripts: Vec<String>,
    init_id: Option<String>,
    models: Vec<String>,
    anims: Vec<String>,
}

impl View for AuxCollect {
    type V = AuxAcc;

    closed spec fn view(&self) -> AuxAcc {
        AuxAcc {
            scripts: strs_view(self.scripts@),
            init_id: match self.init_id {
                Some(s) => Some(s@),
                None => None,
            },
            models: strs_view(self.models@),
            anims: strs_view(self.anims@),
        }
    }
}

impl AuxCollect {
    fn new() -> (r: AuxCollect)
        ensures
            r@ == aux_init(),
    {
        let r = AuxCollect { scripts: Vec::new(), init_id: None, models: Vec::new(), anims: Vec::new() };
        proof {
            assert(r@ =~= aux_init());
        }
        r
    }

    /// Normalization into the returned payload: empty collections absent.
    fn into_result(self) -> (r: BodyUpdateResult)
        ensures
            r@ == normalize_aux(self@),
    {
        let r = BodyUpdateResult {
            script_calls: non_empty(self.scripts),
            initialize_ids: self.init_id,
            model_updates: non_empty(self.models),
            animation_updates: non_empty(self.anims),
        };
        proof {
            assert(r@ =~= normalize_aux(self@));
        }
        r
    }
}

/// Applies [`aux_step`] for one node.
fn aux_collect_step(acc: &mut AuxCollect, n: &XmlNode)
    ensures
        final(acc)@ == aux_step(old(acc)@, *n),
{
    if n.is_named("script-call") {
        if let Some(t) = n.text() {
            if !t.as_str().is_empty() {
                let s = t.clone();
                acc.scripts.push(s);
                proof {
                    assert(acc@ =~= aux_step(old(acc)@, *n));
                }
            }
        }
    } else if n.is_named("initialize-ids") {
        if let Some(t) = n.text() {
            if !t.as_str().is_empty() {
                acc.init_id = Some(t.clone());
            }
        }
    } else if n.is_named("model-update") {
        if let Some(t) = n.text() {
            if !t.as_str().is_empty() {
                let s = t.clone();
                acc.models.push(s);
                proof {
                    assert(acc@ =~= aux_step(old(acc)@, *n));
                }
            }
        }
    } else if n.is_named("animation-update") {
        if let Some(t) = n.text() {
            if !t.as_str().is_empty() {
                let s = t.clone();
                acc.anims.push(s);
                proof {
                    assert(acc@ =~= aux_step(old(acc)@, *n));
                }
            }
        }
    }
}

/// The ghost pair of an optional content id/text pair.
pub open spec fn opt_pair_model(o: Option<(String, String)>) -> Option<(Seq<char>, Seq<char>)> {
    match o {
        Some(p) => Some((p.0@, p.1@)),
        None => None,
    }
}

proof fn lemma_upsert_no_key(s: Seq<(Seq<char>, Seq<char>)>, k: Seq<char>, v: Seq<char>)
    requires
        forall|i: int| 0 <= i < s.len() ==> s[i].0 != k,
    ensures
        upsert(s, k, v) =~= s.push((k, v)),
    decreases s.len(),
{
    if s.len() == 0 {
    } else {
        lemma_upsert_no_key(s.drop_first(), k, v);
        assert(seq![s[0]] + s.drop_first().push((k, v)) =~= s.push((k, v)));
    }
}

proof fn lemma_upsert_at(s: Seq<(Seq<char>, Seq<char>)>, k: Seq<char>, v: Seq<char>, j: int)
    requires
        0 <= j < s.len(),
        forall|i: int| 0 <= i < j ==> s[i].0 != k,
        s[j].0 == k,
    ensures
        upsert(s, k, v) =~= s.update(j, (k, v)),
    decreases s.len(),
{
    if j == 0 {
        assert(seq![(k, v)] + s.drop_first() =~= s.update(0, (k, v)));
    } else {
        lemma_upsert_at(s.drop_first(), k, v, j - 1);
        assert(seq![s[0]] + s.drop_first().update(j - 1, (k, v)) =~= s.update(j, (k, v)));
    }
}

/// Inserts or replaces one control entry, as [`upsert`] describes.
fn upsert_control(v: &mut Vec<(String, String)>, k: String, val: String)
    ensures
        pairs_view(final(v)@) == upsert(pairs_view(old(v)@), k@, val@),
{
    let n = v.len();
    let mut j: usize = 0;
    while j < n
        invariant
            n == v@.len(),
            j <= n,
            v@ == old(v)@,
            forall|i: int| 0 <= i < j ==> pairs_view(v@)[i].0 != k@,
        decreases n - j,
    {
        if str_eq_pair(&v[j].0, &k) {
            proof {
                assert(pairs_view(v@)[j as int].0 == k@);
            }
            v.set(j, (k, val));
            proof {
                lemma_upsert_at(pairs_view(old(v)@), k@, val@, j as int);
                assert(pairs_view(v@) =~= pairs_view(old(v)@).update(j as int, (k@, val@)));
            }
            return ;
        }
        proof {
            assert(pairs_view(v@)[j as int].0 == v@[j as int].0@);
        }
        j += 1;
    }
    v.push((k, val));
    proof {
        lemma_upsert_no_key(pairs_view(old(v)@), k@, val@);
        assert(pairs_view(v@) =~= pairs_view(old(v)@).push((k@, val@)));
    }
}

/// String equality helper over owned strings.
fn str_eq_pair(a: &String, b: &String) -> (r: bool)
    ensures
        r == (a@ == b@),
{
    crate::strutil::str_eq(a.as_str(), b.as_str())
}

/// Decodes one `full-update` block.
fn parse_full_update(child: &XmlNode, acc: &mut AuxCollect) -> (r: Result<
    BodyUpdateType,
    UpdateBodyError,
>)
    ensures
        r matches Ok(u) ==> do_full(*child, old(acc)@) == Ok::<_, UpdateErrView>(
            (u@, final(acc)@),
        ),
        r matches Err(e) ==> do_full(*child, old(acc)@) == Err::<(UpdateModel, AuxAcc), _>(e@),
{
    let window_id = match child.attribute("windowid") {
        Some(w) => w.clone(),
        None => {
            return Err(
                UpdateBodyError::NoSuchAttribute {
                    node: "full-update".to_owned(),
                    attribute: "windowid".to_owned(),
                },
            );
        },
    };
    let mut content: Option<(String, String)> = None;
    let n = child.children.len();
    let mut i: usize = 0;
    proof {
        assert(child.children@.skip(0) =~= child.children@);
    }
    while i < n
        invariant
            n == child.children@.len(),
            i <= n,
            attr_of(*child, "windowid"@) == Some(window_id@),
            fold_full(child.children@, (None, old(acc)@)) == fold_full(
                child.children@.skip(i as int),
                (opt_pair_model(content), acc@),
            ),
        decreases n - i,
    {
        let node = &child.children[i];
        proof {
            assert(child.children@.skip(i as int)[0] == child.children@[i as int]);
            assert(child.children@.skip(i as int).drop_first() =~= child.children@.skip(
                i as int + 1,
            ));
        }
        if node.is_named("content-update") {
            let cid = match node.attribute("id") {
                Some(x) => x.clone(),
                None => {
                    return Err(
                        UpdateBodyError::NoSuchAttribute {
                            node: "content-update".to_owned(),
                            attribute: "id".to_owned(),
                        },
                    );
                },
            };
            let txt = match node.text() {
                Some(t) => t.clone(),
                None => {
                    return Err(UpdateBodyError::NoSuchContent("content-update".to_owned()));
                },
            };
            content = Some((cid, txt));
        } else {
            aux_collect_step(acc, node);
        }
        i += 1;
    }
    proof {
        assert(child.children@.skip(n as int).len() == 0);
    }
    match content {
        Some(pair) => Ok(BodyUpdateType::Full(window_id, pair.0, pair.1)),
        None => Err(UpdateBodyError::NoSuchContent("full-update".to_owned())),
    }
}

/// Decodes one `delta-update` block.
fn parse_delta_update(child: &XmlNode, acc: &mut AuxCollect) -> (r: Result<
    BodyUpdateType,
    UpdateBodyError,
>)
    ensures
        r matches Ok(u) ==> do_delta(*child, old(acc)@) == Ok::<_, UpdateErrView>(
            (u@, final(acc)@),
        ),
        r matches Err(e) ==> do_delta(*child, old(acc)@) == Err::<(UpdateModel, AuxAcc), _>(e@),
{
    let window_id = match child.attribute("windowid") {
        Some(w) => w.clone(),
        None => {
            return Err(
                UpdateBodyError::NoSuchAttribute {
                    node: "delta-update".to_owned(),
                    attribute: "windowid".to_owned(),
                },
            );
        },
    };
    let mut controls: Vec<(String, String)> = Vec::new();
    let n = child.children.len();
    let mut i: usize = 0;
    proof {
        assert(child.children@.skip(0) =~= child.children@);
        assert(pairs_view(controls@) =~= Seq::<(Seq<char>, Seq<char>)>::empty());
    }
    while i < n
        invariant
            n == child.children@.len(),
            i <= n,
            attr_of(*child, "windowid"@) == Some(window_id@),
            fold_delta(child.children@, (Seq::empty(), old(acc)@)) == fold_delta(
                child.children@.skip(i as int),
                (pairs_view(controls@), acc@),
            ),
        decreases n - i,
    {
        let node = &child.children[i];
        proof {
            assert(child.children@.skip(i as int)[0] == child.children@[i as int]);
            assert(child.children@.skip(i as int).drop_first() =~= child.children@.skip(
                i as int + 1,
            ));
        }
        if node.is_named("control-update") {
            let cid = match node.attribute("id") {
                Some(x) => x.clone(),
                None => {
                    return Err(
                        UpdateBodyError::NoSuchAttribute {
                            node: "control-update".to_owned(),
                            attribute: "id".to_owned(),
                        },
                    );
                },
            };
            if child.children[i].children.len() == 0 {
                return Err(UpdateBodyError::NoSuchContent("control-update".to_owned()));
            }
            let first = &child.children[i].children[0];
            let txt = match first.text() {
                Some(t) => t.clone(),
                None => {
                    return Err(UpdateBodyError::NoSuchContent("content".to_owned()));
                },
            };
            upsert_control(&mut controls, cid, txt);
        } else {
            aux_collect_step(acc, node);
        }
        i += 1;
    }
    proof {
        assert(child.children@.skip(n as int).len() == 0);
    }
    Ok(BodyUpdateType::Delta(window_id, controls))
}

impl BodyUpdate {
    /// Decodes one server response, exactly as [`parse_response`] describes:
    /// the update carried by the response (the last block wins when several
    /// appear) plus the normalized auxiliary payload, or the error the
    /// response's shape forces.
    pub fn new(response: &str) -> (r: Result<BodyUpdate, UpdateBodyError>)
        ensures
            r matches Ok(u) ==> parse_response(response@) == Ok::<_, UpdateErrView>(u@),
            r matches Err(e) ==> parse_response(response@) == Err::<BodyUpdateModel, _>(e@),
    {
        let root = match parse_xml(response) {
            Some(t) => t,
            None => {
                return Err(UpdateBodyError::ParseFailed);
            },
        };
        if root.children.len() == 0 {
            return Err(UpdateBodyError::NoSuchNode("<updates>".to_owned()));
        }
        let updates = &root.children[0];
        let mut update_opt: Option<BodyUpdateType> = None;
        let mut acc = AuxCollect::new();
        let n = updates.children.len();
        let mut i: usize = 0;
        proof {
            assert(updates.children@.skip(0) =~= updates.children@);
        }
        while i < n
            invariant
                xml_doc_of(response@) == Some(root),
                root.children@.len() > 0,
                *updates == root.children@[0],
                n == updates.children@.len(),
                i <= n,
                fold_top(updates.children@, (None, aux_init())) == fold_top(
                    updates.children@.skip(i as int),
                    (
                        match update_opt {
                            Some(u) => Some(u@),
                            None => None,
                        },
                        acc@,
                    ),
                ),
            decreases n - i,
        {
            let child = &updates.children[i];
            let ghost pre_acc = acc@;
            let ghost pre_upd: Option<UpdateModel> = match &update_opt {
                Some(u) => Some(u@),
                None => None,
            };
            proof {
                assert(updates.children@.skip(i as int)[0] == updates.children@[i as int]);
                assert(updates.children@.skip(i as int).drop_first() =~= updates.children@.skip(
                    i as int + 1,
                ));
            }
            if child.is_named("full-update") {
                match parse_full_update(child, &mut acc) {
                    Ok(u) => {
                        update_opt = Some(u);
                    },
                    Err(e) => {
                        proof {
                            assert(top_step((pre_upd, pre_acc), *child)
                                == Err::<(Option<UpdateModel>, AuxAcc), UpdateErrView>(e@));
                            assert(fold_top(updates.children@.skip(i as int), (pre_upd, pre_acc))
                                == Err::<(Option<UpdateModel>, AuxAcc), UpdateErrView>(e@));
                            assert(fold_top(updates.children@, (None, aux_init()))
                                == Err::<(Option<UpdateModel>, AuxAcc), UpdateErrView>(e@));
                            assert(*updates == root.children@[0]);
                            assert(parse_update_doc(root) == Err::<BodyUpdateModel, UpdateErrView>(e@));
                            assert(parse_response(response@) == Err::<BodyUpdateModel, UpdateErrView>(e@));
                        }
                        return Err(e);
                    },
                }
            } else if child.is_named("delta-update") {
                match parse_delta_update(child, &mut acc) {
                    Ok(u) => {
                        update_opt = Some(u);
                    },
                    Err(e) => {
                        proof {
                            assert(top_step((pre_upd, pre_acc), *child)
                                == Err::<(Option<UpdateModel>, AuxAcc), UpdateErrView>(e@));
                            assert(fold_top(updates.children@.skip(i as int), (pre_upd, pre_acc))
                                == Err::<(Option<UpdateModel>, AuxAcc), UpdateErrView>(e@));
                            assert(fold_top(updates.children@, (None, aux_init()))
                                == Err::<(Option<UpdateModel>, AuxAcc), UpdateErrView>(e@));
                            assert(*updates == root.children@[0]);
                            assert(parse_update_doc(root) == Err::<BodyUpdateModel, UpdateErrView>(e@));
                            assert(parse_response(response@) == Err::<BodyUpdateModel, UpdateErrView>(e@));
                        }
                        return Err(e);
                    },
                }
            } else {
                aux_collect_step(&mut acc, child);
            }
            i += 1;
        }
        proof {
            assert(updates.children@.skip(n as int).len() == 0);
        }
        let result = BodyUpdate { update: update_opt, auxiliary: acc.into_result() };
        Ok(result)
    }

    /// The auxiliary payload carried by the response.
    pub fn auxiliary(&self) -> (r: &BodyUpdateResult)
        ensures
            r == &self.auxiliary,
    {
        &self.auxiliary
    }
}

/// Ghost view of a [`Body`].
#[verifier::ext_equal]
pub struct BodyModel {
    /// The snapshot text.
    pub raw: Seq<char>,
    /// The session record derived at construction.
    pub ssr: SsrClientModel,
}

/// The cached page snapshot together with the session record that was
/// derived from it at construction time. The snapshot is replaced
/// wholesale when an update is applied; the session record never changes.
#[derive(Debug)]
pub struct Body {
    raw_body: String,
    sap_ssr_client: SapSsrClient,
}

impl View for Body {
    type V = BodyModel;

    closed spec fn view(&self) -> BodyModel {
        BodyModel { raw: self.raw_body@, ssr: self.sap_ssr_client@ }
    }
}

impl Body {
    /// Builds a snapshot from raw navigation HTML: the session record is
    /// extracted up front, and a document it cannot be extracted from is
    /// rejected — there is no partially initialized snapshot.
    pub fn new(raw_body: String) -> (r: Result<Body, BodyError>)
        ensures
            r matches Ok(b) ==> ssr_client_of(raw_body@) == Ok::<_, BodyErrView>(b@.ssr) && b@.raw
                == raw_body@,
            r matches Err(e) ==> ssr_client_of(raw_body@) == Err::<SsrClientModel, _>(e@),
    {
        let sap_ssr_client = match parse_sap_ssr_client(raw_body.as_str()) {
            Ok(c) => c,
            Err(e) => {
                return Err(e);
            },
        };
        Ok(Body { raw_body, sap_ssr_client })
    }

    /// The snapshot text.
    pub fn raw_body(&self) -> (r: &str)
        ensures
            r@ == self@.raw,
    {
        self.raw_body.as_str()
    }

    /// The session record derived at construction.
    pub fn ssr_client(&self) -> (r: &SapSsrClient)
        ensures
            r@ == self@.ssr,
    {
        &self.sap_ssr_client
    }

    /// Applies one decoded response to the snapshot and hands back its
    /// auxiliary payload. No update leaves the text unchanged; a full
    /// update replaces the content element's inner content; a delta update
    /// replaces each control element whole, all in one pass. The session
    /// record is untouched either way.
    pub(crate) fn apply(&mut self, updates: BodyUpdate) -> (r: Result<
        BodyUpdateResult,
        UpdateBodyError,
    >)
        ensures
            final(self)@.ssr == old(self)@.ssr,
            updates@.update is None ==> (r matches Ok(a) && final(self)@.raw == old(self)@.raw
                && a@ == updates@.aux),
            updates@.update matches Some(UpdateModel::Full { window: _, content, fragment }) ==> (
            match inner_rewrite(old(self)@.raw, content, fragment) {
                Some(s) => r matches Ok(a) && final(self)@.raw == s && a@ == updates@.aux,
                None => r matches Err(e) && final(self)@.raw == old(self)@.raw && e@
                    == UpdateErrView::RewriteFailed,
            }),
            updates@.update matches Some(UpdateModel::Delta { window, controls }) ==> (
            match controls_rewrite(old(self)@.raw, window, controls) {
                Some(s) => r matches Ok(a) && final(self)@.raw == s && a@ == updates@.aux,
                None => r matches Err(e) && final(self)@.raw == old(self)@.raw && e@
                    == UpdateErrView::RewriteFailed,
            }),
    {
        let BodyUpdate { update, auxiliary } = updates;
        match update {
            None => Ok(auxiliary),
            Some(BodyUpdateType::Full(_window, content_id, fragment)) => {
                match apply_full(self.raw_body.as_str(), content_id.as_str(), fragment.as_str()) {
                    Ok(s) => {
                        self.raw_body = s;
                        Ok(auxiliary)
                    },
                    Err(e) => Err(e),
                }
            },
            Some(BodyUpdateType::Delta(window, controls)) => {
                match apply_delta(self.raw_body.as_str(), window.as_str(), &controls) {
                    Ok(s) => {
                        self.raw_body = s;
                        Ok(auxiliary)
                    },
                    Err(e) => Err(e),
                }
            },
        }
    }
}

proof fn lemma_fold_top_inert(nodes: Seq<XmlNode>, st: (Option<UpdateModel>, AuxAcc))
    requires
        forall|k: int|
            0 <= k < nodes.len() ==> !is_elem_named(#[trigger] nodes[k], "full-update"@)
                && !is_elem_named(nodes[k], "delta-update"@) && (is_aux(nodes[k])
                ==> nonempty_text(nodes[k]) is None),
    ensures
        fold_top(nodes, st) == Ok::<(Option<UpdateModel>, AuxAcc), UpdateErrView>(st),
    decreases nodes.len(),
{
    if nodes.len() > 0 {
        assert(aux_step(st.1, nodes[0]) == st.1);
        assert(top_step(st, nodes[0]) == Ok::<(Option<UpdateModel>, AuxAcc), UpdateErrView>(st));
        assert(forall|k: int|
            0 <= k < nodes.drop_first().len() ==> #[trigger] nodes.drop_first()[k] == nodes[k + 1]);
        lemma_fold_top_inert(nodes.drop_first(), st);
    }
}

/// A response tree whose update container holds no update block, and whose
/// auxiliary nodes all have empty or missing text, decodes to no update and
/// all four auxiliary payloads absent.
pub proof fn lemma_empty_aux_yields_absent(root: XmlNode)
    requires
        root.children@.len() > 0,
        forall|k: int|
            0 <= k < root.children@[0].children@.len() ==> !is_elem_named(
                #[trigger] root.children@[0].children@[k],
                "full-update"@,
            ) && !is_elem_named(root.children@[0].children@[k], "delta-update"@) && (is_aux(
                root.children@[0].children@[k],
            ) ==> nonempty_text(root.children@[0].children@[k]) is None),
    ensures
        parse_update_doc(root) == Ok::<BodyUpdateModel, UpdateErrView>(
            BodyUpdateModel {
                update: None,
                aux: AuxPayloadModel {
                    script_calls: None,
                    initialize_ids: None,
                    model_updates: None,
                    animation_updates: None,
                },
            },
        ),
{
    lemma_fold_top_inert(root.children@[0].children@, (None, aux_init()));
    assert(normalize_aux(aux_init()) =~= (AuxPayloadModel {
        script_calls: None,
        initialize_ids: None,
        model_updates: None,
        animation_updates: None,
    }));
}

/// The non-empty texts of the elements named `tag` among the nodes, in
/// document order.
pub open spec fn texts_of(nodes: Seq<XmlNode>, tag: Seq<char>) -> Seq<Seq<char>>
    decreases nodes.len(),
{
    if nodes.len() == 0 {
        Seq::empty()
    } else {
        (if is_elem_named(nodes[0], tag) {
            match nonempty_text(nodes[0]) {
                Some(t) => seq![t],
                None => Seq::empty(),
            }
        } else {
            Seq::<Seq<char>>::empty()
        }) + texts_of(nodes.drop_first(), tag)
    }
}

/// The last non-empty `initialize-ids` text among the nodes, if any.
pub open spec fn last_init_of(nodes: Seq<XmlNode>) -> Option<Seq<char>>
    decreases nodes.len(),
{
    if nodes.len() == 0 {
        None
    } else {
        let last = nodes[nodes.len() - 1];
        if is_elem_named(last, "initialize-ids"@) && nonempty_text(last) is Some {
            nonempty_text(last)
        } else {
            last_init_of(nodes.drop_last())
        }
    }
}

/// The head contribution of a node to [`last_init_of`].
pub open spec fn init_contrib(n: XmlNode) -> Option<Seq<char>> {
    if is_elem_named(n, "initialize-ids"@) {
        nonempty_text(n)
    } else {
        None
    }
}

proof fn lemma_last_init_cons(nodes: Seq<XmlNode>)
    requires
        nodes.len() > 0,
    ensures
        last_init_of(nodes) == (match last_init_of(nodes.drop_first()) {
            Some(t) => Some(t),
            None => init_contrib(nodes[0]),
        }),
    decreases nodes.len(),
{
    if nodes.len() == 1 {
        assert(nodes.drop_first().len() == 0);
        assert(nodes.drop_last().len() == 0);
    } else {
        let last = nodes[nodes.len() - 1];
        assert(nodes.drop_first()[nodes.drop_first().len() - 1] == last);
        if is_elem_named(last, "initialize-ids"@) && nonempty_text(last) is Some {
        } else {
            assert(nodes.drop_last().len() > 0);
            lemma_last_init_cons(nodes.drop_last());
            assert(nodes.drop_last().drop_first() =~= nodes.drop_first().drop_last());
            assert(nodes.drop_last()[0] == nodes[0]);
        }
    }
}

/// What a run of nodes without update blocks does to the auxiliary
/// accumulator: the fold succeeds, the update slot is untouched, every
/// list grows by exactly the non-empty texts of its element kind, in
/// document order, and the initialize-ids slot takes the last non-empty
/// value seen — or keeps its old one when none appears. This pins, for
/// any response, how the auxiliary payloads are harvested.
pub proof fn lemma_aux_harvest(nodes: Seq<XmlNode>, u0: Option<UpdateModel>, a: AuxAcc)
    requires
        forall|k: int|
            0 <= k < nodes.len() ==> !is_elem_named(#[trigger] nodes[k], "full-update"@)
                && !is_elem_named(nodes[k], "delta-update"@),
    ensures
        fold_top(nodes, (u0, a)) == Ok::<(Option<UpdateModel>, AuxAcc), UpdateErrView>(
            (
                u0,
                AuxAcc {
                    scripts: a.scripts + texts_of(nodes, "script-call"@),
                    init_id: match last_init_of(nodes) {
                        Some(t) => Some(t),
                        None => a.init_id,
                    },
                    models: a.models + texts_of(nodes, "model-update"@),
                    anims: a.anims + texts_of(nodes, "animation-update"@),
                },
            ),
        ),
    decreases nodes.len(),
{
    reveal_strlit("script-call");
    reveal_strlit("initialize-ids");
    reveal_strlit("model-update");
    reveal_strlit("animation-update");
    assert("script-call"@.len() == 11);
    assert("initialize-ids"@.len() == 14);
    assert("model-update"@.len() == 12);
    assert("animation-update"@.len() == 16);
    if nodes.len() == 0 {
        assert(a.scripts + texts_of(nodes, "script-call"@) =~= a.scripts);
        assert(a.models + texts_of(nodes, "model-update"@) =~= a.models);
        assert(a.anims + texts_of(nodes, "animation-update"@) =~= a.anims);
        assert(fold_top(nodes, (u0, a)) == Ok::<(Option<UpdateModel>, AuxAcc), UpdateErrView>(
            (u0, a),
        ));
        assert(AuxAcc {
            scripts: a.scripts + texts_of(nodes, "script-call"@),
            init_id: match last_init_of(nodes) {
                Some(t) => Some(t),
                None => a.init_id,
            },
            models: a.models + texts_of(nodes, "model-update"@),
            anims: a.anims + texts_of(nodes, "animation-update"@),
        } =~= a);
    } else {
        let n0 = nodes[0];
        let a1 = aux_step(a, n0);
        assert(top_step((u0, a), n0) == Ok::<(Option<UpdateModel>, AuxAcc), UpdateErrView>(
            (u0, a1),
        ));
        assert(forall|k: int|
            0 <= k < nodes.drop_first().len() ==> #[trigger] nodes.drop_first()[k] == nodes[k + 1]);
        lemma_aux_harvest(nodes.drop_first(), u0, a1);
        lemma_last_init_cons(nodes);
        // The step contributes exactly its own text at the front of what
        // the rest contributes.
        assert(a1.scripts + texts_of(nodes.drop_first(), "script-call"@) =~= a.scripts + texts_of(
            nodes,
            "script-call"@,
        ));
        assert(a1.models + texts_of(nodes.drop_first(), "model-update"@) =~= a.models + texts_of(
            nodes,
            "model-update"@,
        ));
        assert(a1.anims + texts_of(nodes.drop_first(), "animation-update"@) =~= a.anims + texts_of(
            nodes,
            "animation-update"@,
        ));
        assert((match last_init_of(nodes.drop_first()) {
            Some(t) => Some(t),
            None => a1.init_id,
        }) == (match last_init_of(nodes) {
            Some(t) => Some(t),
            None => a.init_id,
        }));
    }
}

} // verus!
