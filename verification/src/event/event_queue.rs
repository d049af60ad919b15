//! The ordered buffer of user events and its drain-and-serialize step.
//!
//! Events are appended at the tail. An event that cannot be batched but
//! forces a submit sets the flush flag. The whole queue is serialized in one
//! piece — events joined by the event separator, no trailing separator — and
//! cleared together; it is never partially drained.

use vstd::prelude::*;

use crate::error::ClientError;
use crate::event::ucf_parameters::{UcfParameters, spec_is_enqueable, spec_is_submitable};
use crate::event::{Event, EventBuilder, EventModel, sep_event, ser_event};
use crate::strutil::{pairs_view, push_str_chars, string_of};

verus! {

/// What the queue asks of its caller after an event was added.
pub enum EnqueueEventResult {
    /// The queue must now be flushed to the server.
    ShouldProcess,
    /// The event is buffered; nothing more to do now.
    Enqueued,
}

/// The models of a sequence of events.
pub open spec fn events_model(s: Seq<Event>) -> Seq<EventModel> {
    s.map_values(|e: Event| e@)
}

/// The wire form of the events after the first: each preceded by the event
/// separator.
pub open spec fn ser_queue_tail(q: Seq<EventModel>) -> Seq<char>
    decreases q.len(),
{
    if q.len() == 0 {
        Seq::empty()
    } else {
        sep_event() + ser_event(q[0]) + ser_queue_tail(q.drop_first())
    }
}

/// The wire form of a whole queue: the events' wire forms joined by the
/// event separator, empty for an empty queue, with no trailing separator.
pub open spec fn ser_queue(q: Seq<EventModel>) -> Seq<char> {
    if q.len() == 0 {
        Seq::empty()
    } else {
        ser_event(q[0]) + ser_queue_tail(q.drop_first())
    }
}

/// The ordered event buffer plus the flush flag.
#[derive(Debug)]
pub struct EventQueue {
    queue: Vec<Event>,
    should_process: bool,
}

impl EventQueue {
    /// The queued events, in order.
    pub closed spec fn model(&self) -> Seq<EventModel> {
        events_model(self.queue@)
    }

    /// The flush flag.
    pub closed spec fn flush_flag(&self) -> bool {
        self.should_process
    }

    /// An empty queue with a cleared flag.
    pub fn new() -> (r: EventQueue)
        ensures
            r.model() == Seq::<EventModel>::empty(),
            r.flush_flag() == false,
    {
        let r = EventQueue { queue: Vec::new(), should_process: false };
        proof {
            assert(r.model() =~= Seq::<EventModel>::empty());
        }
        r
    }

    /// Appends one event at the tail. An event that is not batchable but
    /// forces a submit sets the flush flag; the result says whether the
    /// queue must now be flushed.
    pub fn add(&mut self, evt: Event) -> (r: EnqueueEventResult)
        ensures
            final(self).model() == old(self).model().push(evt@),
            final(self).flush_flag() == (old(self).flush_flag() || (!spec_is_enqueable(
                evt@.ucf_parameters,
            ) && spec_is_submitable(evt@.ucf_parameters))),
            r is ShouldProcess <==> final(self).flush_flag(),
    {
        if !evt.is_enqueable() && evt.is_submitable() {
            self.should_process = true;
        }
        let ghost evm = evt@;
        self.queue.push(evt);
        proof {
            assert(self.model() =~= old(self).model().push(evm));
        }
        if self.should_process {
            EnqueueEventResult::ShouldProcess
        } else {
            EnqueueEventResult::Enqueued
        }
    }

    /// Serializes the whole queue in order — [`ser_queue`] gives the exact
    /// text — then clears it and resets the flush flag. An empty queue
    /// yields the empty string.
    pub fn serialize_and_clear(&mut self) -> (r: String)
        ensures
            r@ == ser_queue(old(self).model()),
            final(self).model() == Seq::<EventModel>::empty(),
            final(self).flush_flag() == false,
    {
        let mut out: Vec<char> = Vec::new();
        let n = self.queue.len();
        let ghost q = self.model();
        let mut i: usize = 0;
        proof {
            assert(q.skip(0) =~= q);
        }
        while i < n
            invariant
                n == self.queue@.len(),
                q == self.model(),
                q.len() == n,
                i <= n,
                i == 0 ==> out@ == Seq::<char>::empty(),
                i > 0 ==> out@ + ser_queue_tail(q.skip(i as int)) == ser_queue(q),
            decreases n - i,
        {
            let ghost pre = out@;
            proof {
                assert(q.skip(i as int)[0] == q[i as int]);
                assert(q[i as int] == self.queue@[i as int]@);
                assert(q.skip(i as int).drop_first() =~= q.skip(i as int + 1));
            }
            if i > 0 {
                push_str_chars(&mut out, "~E001");
            }
            let s = self.queue[i].serialize();
            push_str_chars(&mut out, s.as_str());
            proof {
                if i == 0 {
                    assert(out@ =~= ser_event(q[0]));
                    assert(q.drop_first() =~= q.skip(1));
                    assert(out@ + ser_queue_tail(q.skip(1)) =~= ser_event(q[0]) + ser_queue_tail(
                        q.drop_first(),
                    ));
                } else {
                    assert(out@ =~= pre + (sep_event() + ser_event(q[i as int])));
                    assert(sep_event() + ser_event(q[i as int]) + ser_queue_tail(
                        q.skip(i as int + 1),
                    ) =~= ser_queue_tail(q.skip(i as int)));
                    assert(out@ + ser_queue_tail(q.skip(i as int + 1)) =~= pre + (sep_event()
                        + ser_event(q[i as int]) + ser_queue_tail(q.skip(i as int + 1))));
                }
            }
            i += 1;
        }
        proof {
            if n > 0 {
                assert(ser_queue_tail(q.skip(n as int)) =~= Seq::<char>::empty());
                assert(out@ + Seq::<char>::empty() =~= out@);
            }
        }
        self.queue.clear();
        self.should_process = false;
        let r = string_of(&out);
        proof {
            assert(self.model() =~= Seq::<EventModel>::empty());
        }
        r
    }

    /// Appends the synthetic form-submit event, then serializes and clears
    /// the queue as [`serialize_and_clear`] does. Always succeeds.
    pub fn serialize_and_clear_with_form_event(&mut self) -> (r: Result<String, ClientError>)
        ensures
            r matches Ok(s) && s@ == ser_queue(
                old(self).model().push(form_request_model(false, ""@, ""@, false, false))),
            final(self).model() == Seq::<EventModel>::empty(),
            final(self).flush_flag() == false,
    {
        let form_req = match create_form_request_event(false, "", "", false, false) {
            Ok(e) => e,
            Err(_) => {
                return Err(ClientError::NoSuchForm("sap.client.SsrClient.form".to_owned()));
            },
        };
        self.add(form_req);
        Ok(self.serialize_and_clear())
    }

    /// Removes and returns the event at the head, if any.
    pub fn remove(&mut self) -> (r: Option<Event>)
        ensures
            old(self).model().len() == 0 ==> (r is None && final(self).model() == old(
                self,
            ).model()),
            old(self).model().len() > 0 ==> (r matches Some(e) && e@ == old(self).model()[0]
                && final(self).model() == old(self).model().drop_first()),
            final(self).flush_flag() == old(self).flush_flag(),
    {
        if self.queue.len() == 0 {
            None
        } else {
            let e = self.queue.remove(0);
            proof {
                assert(self.model() =~= old(self).model().drop_first());
                assert(old(self).model()[0] == old(self).queue@[0]@);
            }
            Some(e)
        }
    }
}

/// Ghost view of the synthetic form-submit event: control `Form`, event
/// `Request`, the six fixed parameters in order, empty transport-control
/// and custom parts.
pub open spec fn form_request_model(
    is_async: bool,
    focus_info: Seq<char>,
    hash: Seq<char>,
    dom_changed: bool,
    is_dirty: bool,
) -> EventModel {
    EventModel {
        control: "Form"@,
        event: "Request"@,
        parameters: seq![
            ("Id"@, "sap.client.SsrClient.form"@),
            ("Async"@, bool_wire(is_async)),
            ("FocusInfo"@, focus_info),
            ("Hash"@, hash),
            ("DomChanged"@, bool_wire(dom_changed)),
            ("IsDirty"@, bool_wire(is_dirty)),
        ],
        ucf_parameters: UcfParameters {
            action: None,
            enqueue_cardinality: None,
            response: None,
            delay: None,
        },
        custom_parameters: Seq::empty(),
    }
}

/// The wire text of a boolean parameter value.
pub open spec fn bool_wire(b: bool) -> Seq<char> {
    if b {
        "true"@
    } else {
        "false"@
    }
}

/// Exec counterpart of [`bool_wire`].
fn bool_str(b: bool) -> (r: &'static str)
    ensures
        r@ == bool_wire(b),
{
    if b {
        "true"
    } else {
        "false"
    }
}

/// Builds the synthetic form-submit event used to force a full-page
/// submit. Always succeeds.
pub fn create_form_request_event(
    is_async: bool,
    focus_info: &str,
    hash: &str,
    dom_changed: bool,
    is_dirty: bool,
) -> (r: Result<Event, crate::error::EventBuilderError>)
    ensures
        r matches Ok(e) && e@ == form_request_model(
            is_async, focus_info@, hash@, dom_changed, is_dirty),
{
    let mut form_parameters: Vec<(String, String)> = Vec::new();
    form_parameters.push(("Id".to_owned(), "sap.client.SsrClient.form".to_owned()));
    form_parameters.push(("Async".to_owned(), bool_str(is_async).to_owned()));
    form_parameters.push(("FocusInfo".to_owned(), focus_info.to_owned()));
    form_parameters.push(("Hash".to_owned(), hash.to_owned()));
    form_parameters.push(("DomChanged".to_owned(), bool_str(dom_changed).to_owned()));
    form_parameters.push(("IsDirty".to_owned(), bool_str(is_dirty).to_owned()));
    let built = EventBuilder::default().control("Form".to_owned()).event(
        "Request".to_owned(),
    ).parameters(form_parameters).ucf_parameters(
        UcfParameters { action: None, enqueue_cardinality: None, response: None, delay: None },
    ).custom_parameters(Vec::new()).build();
    match built {
        Ok(e) => {
            proof {
                assert(e@.parameters =~= form_request_model(
                    is_async,
                    focus_info@,
                    hash@,
                    dom_changed,
                    is_dirty,
                ).parameters);
                assert(e@.custom_parameters =~= Seq::<(Seq<char>, Seq<char>)>::empty());
                assert(e@ =~= form_request_model(
                    is_async,
                    focus_info@,
                    hash@,
                    dom_changed,
                    is_dirty,
                ));
            }
            Ok(e)
        },
        Err(e) => {
            proof {
                assert(false);
            }
            Err(e)
        },
    }
}

/// The wire form of an empty queue is the empty text, and the wire form of
/// a two-event queue is the first event's text, the event separator, and
/// the second event's text — nothing more.
pub proof fn lemma_serialize_empty_and_pair(e1: EventModel, e2: EventModel)
    ensures
        ser_queue(Seq::<EventModel>::empty()) == Seq::<char>::empty(),
        ser_queue(seq![e1, e2]) == ser_event(e1) + sep_event() + ser_event(e2),
{
    let q = seq![e1, e2];
    assert(q.drop_first() =~= seq![e2]);
    assert(seq![e2].drop_first() =~= Seq::<EventModel>::empty());
    assert(ser_queue_tail(seq![e2]) == sep_event() + ser_event(e2) + ser_queue_tail(
        Seq::<EventModel>::empty(),
    ));
    assert(sep_event() + ser_event(e2) + Seq::<char>::empty() =~= sep_event() + ser_event(e2));
    assert(ser_event(e1) + (sep_event() + ser_event(e2)) =~= ser_event(e1) + sep_event()
        + ser_event(e2));
}

/// Draining after one more `add` appends exactly that event's wire form at
/// the tail: one separator before it when the queue was non-empty, none
/// when it was empty. With `add`'s and `serialize_and_clear`'s contracts
/// this pins the round trip: the drain covers exactly the added events, in
/// order, and leaves an empty queue with a cleared flag.
pub proof fn lemma_round_trip(q: Seq<EventModel>, e: EventModel)
    ensures
        q.len() == 0 ==> ser_queue(q.push(e)) == ser_event(e),
        q.len() > 0 ==> ser_queue(q.push(e)) == ser_queue(q) + sep_event() + ser_event(e),
{
    if q.len() == 0 {
        assert(q.push(e)[0] == e);
        assert(q.push(e).drop_first() =~= Seq::<EventModel>::empty());
        assert(ser_event(e) + Seq::<char>::empty() =~= ser_event(e));
    } else {
        lemma_tail_push(q.drop_first(), e);
        assert(q.push(e)[0] == q[0]);
        assert(q.push(e).drop_first() =~= q.drop_first().push(e));
        assert(ser_event(q[0]) + (ser_queue_tail(q.drop_first()) + sep_event() + ser_event(e)) =~=
            ser_event(q[0]) + ser_queue_tail(q.drop_first()) + sep_event() + ser_event(e));
    }
}

proof fn lemma_tail_push(q: Seq<EventModel>, e: EventModel)
    ensures
        ser_queue_tail(q.push(e)) == ser_queue_tail(q) + sep_event() + ser_event(e),
    decreases q.len(),
{
    if q.len() == 0 {
        assert(q.push(e)[0] == e);
        assert(q.push(e).drop_first() =~= Seq::<EventModel>::empty());
        assert(ser_queue_tail(q.push(e)) == sep_event() + ser_event(e) + ser_queue_tail(
            Seq::<EventModel>::empty(),
        ));
        assert(sep_event() + ser_event(e) + Seq::<char>::empty() =~= Seq::<char>::empty()
            + sep_event() + ser_event(e));
    } else {
        lemma_tail_push(q.drop_first(), e);
        assert(q.push(e)[0] == q[0]);
        assert(q.push(e).drop_first() =~= q.drop_first().push(e));
        assert(sep_event() + ser_event(q[0]) + (ser_queue_tail(q.drop_first()) + sep_event()
            + ser_event(e)) =~= sep_event() + ser_event(q[0]) + ser_queue_tail(q.drop_first())
            + sep_event() + ser_event(e));
    }
}

} // verus!
