//! Session-level state: the base URL, the session record extracted from the
//! navigation document, and the controller that owns one snapshot and one
//! event queue.

use vstd::prelude::*;

use crate::body::{Body, BodyModel, BodyUpdate, BodyUpdateResult, UpdateModel};
use crate::error::{ClientErrView, ClientError, UpdateErrView, WebDynproErrView, WebDynproError};
use crate::event::event_queue::{EnqueueEventResult, EventQueue, form_request_model, ser_queue};
use crate::event::ucf_parameters::{spec_is_enqueable, spec_is_submitable};
use crate::event::{Event, EventModel};
use crate::patch::{controls_rewrite, inner_rewrite};
use crate::strutil::{chars_of, push_all, push_str_chars, string_of};

verus! {

/// Ghost view of a [`BaseUrl`].
#[verifier::ext_equal]
pub struct BaseUrlModel {
    /// The URL as text.
    pub raw: Seq<char>,
    /// Its scheme.
    pub scheme: Seq<char>,
    /// Its host, if it has one.
    pub host: Option<Seq<char>>,
    /// Its explicit port, if any.
    pub port: Option<u16>,
}

/// The parts of the session's base URL that the engine reads: the full
/// text, the scheme, the host and the explicit port. A transport layer
/// fills it from its own URL type.
#[derive(Debug, Clone, PartialEq, Eq)]
pub struct BaseUrl {
    /// The URL as text.
    pub raw: String,
    /// Its scheme.
    pub scheme: String,
    /// Its host, if it has one.
    pub host: Option<String>,
    /// Its explicit port, if any.
    pub port: Option<u16>,
}

impl View for BaseUrl {
    type V = BaseUrlModel;

    open spec fn view(&self) -> BaseUrlModel {
        BaseUrlModel {
            raw: self.raw@,
            scheme: self.scheme@,
            host: match self.host {
                Some(h) => Some(h@),
                None => None,
            },
            port: self.port,
        }
    }
}

/// Ghost view of a [`SapSsrClient`].
#[verifier::ext_equal]
pub struct SsrClientModel {
    /// The entity-decoded action path.
    pub action: Seq<char>,
    /// The character set of the session.
    pub charset: Seq<char>,
    /// The secure-session id.
    pub wd_secure_id: Seq<char>,
    /// The application name.
    pub app_name: Seq<char>,
    /// Whether the session reports through a beacon.
    pub use_beacon: bool,
}

/// The session record extracted once from the navigation document's hidden
/// form: action path, charset, secure-session id, application name and the
/// beacon flag. Immutable for the session's lifetime.
#[derive(Debug, Clone, PartialEq, Eq)]
pub struct SapSsrClient {
    /// The entity-decoded action path.
    pub action: String,
    /// The character set of the session.
    pub charset: String,
    /// The secure-session id.
    pub wd_secure_id: String,
    /// The application name.
    pub app_name: String,
    /// Whether the session reports through a beacon.
    pub use_beacon: bool,
}

impl View for SapSsrClient {
    type V = SsrClientModel;

    open spec fn view(&self) -> SsrClientModel {
        SsrClientModel {
            action: self.action@,
            charset: self.charset@,
            wd_secure_id: self.wd_secure_id@,
            app_name: self.app_name@,
            use_beacon: self.use_beacon,
        }
    }
}

/// Decimal digits of `n`, most significant first, no leading zeros.
pub open spec fn dec_rep(n: int) -> Seq<char>
    decreases n,
{
    if n < 10 {
        seq![crate::event::hex_digit_char(n)]
    } else {
        dec_rep(n / 10).push(crate::event::hex_digit_char(n % 10))
    }
}

/// The action URL that a session submits to: the base URL's scheme, host
/// and explicit port, then the session form's action path — or the
/// invalid-base-URL error when the base URL has no host.
pub open spec fn action_url_model(ssr: SsrClientModel, base: BaseUrlModel) -> Result<
    Seq<char>,
    ClientErrView,
> {
    match base.host {
        None => Err(ClientErrView::InvalidBaseUrl(base.raw)),
        Some(h) => Ok(
            base.scheme + "://"@ + h + (match base.port {
                Some(p) => seq![':'] + dec_rep(p as int),
                None => Seq::empty(),
            }) + ssr.action,
        ),
    }
}

/// Decimal digits of `n`.
fn dec_digits(n: u16) -> (r: Vec<char>)
    ensures
        r@ == dec_rep(n as int),
    decreases n,
{
    if n < 10 {
        let mut v: Vec<char> = Vec::new();
        v.push(crate::event::hex_digit((n % 10) as u32));
        proof {
            assert(v@ =~= dec_rep(n as int));
        }
        v
    } else {
        let mut v = dec_digits(n / 10);
        v.push(crate::event::hex_digit((n % 10) as u32));
        v
    }
}

impl SapSsrClient {
    /// The full action URL for this session against the given base URL,
    /// exactly as [`action_url_model`] gives it.
    pub fn build_action_url(&self, base_url: &BaseUrl) -> (r: Result<String, ClientError>)
        ensures
            r matches Ok(s) ==> action_url_model(self@, base_url@) == Ok::<_, ClientErrView>(s@),
            r matches Err(e) ==> action_url_model(self@, base_url@) == Err::<Seq<char>, _>(e@),
    {
        let mut out: Vec<char> = Vec::new();
        push_str_chars(&mut out, base_url.scheme.as_str());
        push_str_chars(&mut out, "://");
        match &base_url.host {
            Some(h) => {
                push_str_chars(&mut out, h.as_str());
            },
            None => {
                return Err(ClientError::InvalidBaseUrl(base_url.raw.clone()));
            },
        }
        if let Some(p) = base_url.port {
            out.push(':');
            let ds = dec_digits(p);
            push_all(&mut out, &ds);
        }
        push_str_chars(&mut out, self.action.as_str());
        let r = string_of(&out);
        proof {
            assert(action_url_model(self@, base_url@) matches Ok(u) && r@ =~= u);
        }
        Ok(r)
    }
}

/// How an event handed to the session was dealt with.
pub enum EventProcessResult {
    /// The event was buffered for a later flush.
    Enqueued,
    /// The event forced a flush and was sent with it.
    Sent,
}

/// The client URL used for navigation and XHR calls: the base URL, a `/`
/// appended unless it already ends in one, the application name, and the
/// stable-ids query flag.
pub open spec fn client_url_model(base_raw: Seq<char>, name: Seq<char>) -> Seq<char> {
    base_raw + (if base_raw.len() > 0 && base_raw[base_raw.len() - 1] == '/' {
        Seq::<char>::empty()
    } else {
        seq!['/']
    }) + name + "?sap-wd-stableids=X#"@
}

/// The session controller: one snapshot, one event queue, the application
/// name and the base URL, driven by a transport layer outside the engine.
#[derive(Debug)]
pub struct WebDynproState {
    base_url: BaseUrl,
    name: String,
    body: Body,
    event_queue: EventQueue,
}

impl WebDynproState {
    /// The base URL.
    pub closed spec fn base_model(&self) -> BaseUrlModel {
        self.base_url@
    }

    /// The application name.
    pub closed spec fn name_model(&self) -> Seq<char> {
        self.name@
    }

    /// The snapshot with its session record.
    pub closed spec fn body_model(&self) -> BodyModel {
        self.body@
    }

    /// The queued events, in order.
    pub closed spec fn queue_model(&self) -> Seq<EventModel> {
        self.event_queue.model()
    }

    /// The queue's flush flag.
    pub closed spec fn queue_flag(&self) -> bool {
        self.event_queue.flush_flag()
    }

    /// A fresh session over the given snapshot, with an empty queue.
    pub fn new(base_url: BaseUrl, name: String, body: Body) -> (r: WebDynproState)
        ensures
            r.base_model() == base_url@,
            r.name_model() == name@,
            r.body_model() == body@,
            r.queue_model() == Seq::<EventModel>::empty(),
            r.queue_flag() == false,
    {
        WebDynproState { base_url, name, body, event_queue: EventQueue::new() }
    }

    /// The application name.
    pub fn name(&self) -> (r: &str)
        ensures
            r@ == self.name_model(),
    {
        self.name.as_str()
    }

    /// The base URL.
    pub fn base_url(&self) -> (r: &BaseUrl)
        ensures
            r@ == self.base_model(),
    {
        &self.base_url
    }

    /// The current snapshot.
    pub fn body(&self) -> (r: &Body)
        ensures
            r@ == self.body_model(),
    {
        &self.body
    }

    /// The URL that navigation and XHR requests go to, exactly as
    /// [`client_url_model`] gives it.
    pub fn client_url(&self) -> (r: String)
        ensures
            r@ == client_url_model(self.base_model().raw, self.name_model()),
    {
        let cs = chars_of(self.base_url.raw.as_str());
        let mut out: Vec<char> = Vec::new();
        push_all(&mut out, &cs);
        let needs_slash: bool = if cs.len() == 0 {
            true
        } else {
            cs[cs.len() - 1] != '/'
        };
        if needs_slash {
            out.push('/');
        }
        push_str_chars(&mut out, self.name.as_str());
        push_str_chars(&mut out, "?sap-wd-stableids=X#");
        let r = string_of(&out);
        proof {
            assert(r@ =~= client_url_model(self.base_model().raw, self.name_model()));
        }
        r
    }

    /// Applies one decoded response to the snapshot and hands back its
    /// auxiliary payload, as the snapshot's own apply step does; a rewrite
    /// failure is surfaced wrapped as an update error. The queue, the name
    /// and the base URL are untouched.
    pub fn mutate_body(&mut self, update: BodyUpdate) -> (r: Result<
        BodyUpdateResult,
        WebDynproError,
    >)
        ensures
            final(self).base_model() == old(self).base_model(),
            final(self).name_model() == old(self).name_model(),
            final(self).queue_model() == old(self).queue_model(),
            final(self).queue_flag() == old(self).queue_flag(),
            final(self).body_model().ssr == old(self).body_model().ssr,
            update@.update is None ==> (r matches Ok(a) && final(self).body_model().raw == old(
                self,
            ).body_model().raw && a@ == update@.aux),
            update@.update matches Some(UpdateModel::Full { window: _, content, fragment }) ==> (
            match inner_rewrite(old(self).body_model().raw, content, fragment) {
                Some(s) => r matches Ok(a) && final(self).body_model().raw == s && a@
                    == update@.aux,
                None => r matches Err(e) && final(self).body_model().raw == old(
                    self,
                ).body_model().raw && e@ == WebDynproErrView::UpdateBody(
                    UpdateErrView::RewriteFailed,
                ),
            }),
            update@.update matches Some(UpdateModel::Delta { window, controls }) ==> (
            match controls_rewrite(old(self).body_model().raw, window, controls) {
                Some(s) => r matches Ok(a) && final(self).body_model().raw == s && a@
                    == update@.aux,
                None => r matches Err(e) && final(self).body_model().raw == old(
                    self,
                ).body_model().raw && e@ == WebDynproErrView::UpdateBody(
                    UpdateErrView::RewriteFailed,
                ),
            }),
    {
        match self.body.apply(update) {
            Ok(a) => Ok(a),
            Err(e) => Err(WebDynproError::UpdateBody(e)),
        }
    }

    /// Buffers one event, as the queue's own add step does: the event goes
    /// to the tail, and the result says whether a flush is now required.
    pub fn add_event(&mut self, event: Event) -> (r: EnqueueEventResult)
        ensures
            final(self).base_model() == old(self).base_model(),
            final(self).name_model() == old(self).name_model(),
            final(self).body_model() == old(self).body_model(),
            final(self).queue_model() == old(self).queue_model().push(event@),
            final(self).queue_flag() == (old(self).queue_flag() || (!spec_is_enqueable(
                event@.ucf_parameters,
            ) && spec_is_submitable(event@.ucf_parameters))),
            r is ShouldProcess <==> final(self).queue_flag(),
    {
        self.event_queue.add(event)
    }

    /// Serializes and drains the whole queue, as the queue's own step
    /// does: the queued events joined in order, then an empty queue and a
    /// cleared flag.
    pub fn serialize_and_clear(&mut self) -> (r: String)
        ensures
            final(self).base_model() == old(self).base_model(),
            final(self).name_model() == old(self).name_model(),
            final(self).body_model() == old(self).body_model(),
            r@ == ser_queue(old(self).queue_model()),
            final(self).queue_model() == Seq::<EventModel>::empty(),
            final(self).queue_flag() == false,
    {
        self.event_queue.serialize_and_clear()
    }

    /// Appends the synthetic form-submit event and then serializes and
    /// drains the queue. Always succeeds.
    pub fn serialize_and_clear_with_form_event(&mut self) -> (r: Result<String, ClientError>)
        ensures
            final(self).base_model() == old(self).base_model(),
            final(self).name_model() == old(self).name_model(),
            final(self).body_model() == old(self).body_model(),
            r matches Ok(s) && s@ == ser_queue(
                old(self).queue_model().push(form_request_model(false, ""@, ""@, false, false))),
            final(self).queue_model() == Seq::<EventModel>::empty(),
            final(self).queue_flag() == false,
    {
        self.event_queue.serialize_and_clear_with_form_event()
    }
}

} // verus!
