//! Transport-control parameters attached to every event.
//!
//! They tell the server how the event travels: whether it forces a submit,
//! whether it may be batched, what response shape is expected, and whether
//! its handling may be delayed. Each field is optional; only set fields are
//! serialized, under fixed wire names, in a fixed order.

use vstd::prelude::*;

verus! {

/// How the client acts when the event is raised.
#[derive(Clone, Copy, Debug, PartialEq, Eq, Structural)]
pub enum UcfAction {
    /// The event forces a synchronous submit round-trip.
    Submit,
    /// The event forces an asynchronous submit round-trip.
    SubmitAsync,
    /// The event is queued for a later round-trip.
    Enqueue,
}

/// How many events of this kind may sit in the queue together.
#[derive(Clone, Copy, Debug, PartialEq, Eq, Structural)]
pub enum UcfCardinality {
    /// At most one.
    Single,
    /// Any number.
    Multiple,
}

/// The response shape the client expects for the event.
#[derive(Clone, Copy, Debug, PartialEq, Eq, Structural)]
pub enum UcfResponseData {
    /// A full page document.
    Full,
    /// An incremental update document.
    Delta,
}

/// Whether the server may delay handling the event.
#[derive(Clone, Copy, Debug, PartialEq, Eq, Structural)]
pub enum UcfDelay {
    /// Handling may be delayed.
    Full,
    /// Handling must not be delayed.
    NoDelay,
}

/// The transport-control parameter set of one event.
#[derive(Clone, Copy, Debug)]
pub struct UcfParameters {
    /// Client action, if set.
    pub action: Option<UcfAction>,
    /// Queue cardinality, if set.
    pub enqueue_cardinality: Option<UcfCardinality>,
    /// Expected response shape, if set.
    pub response: Option<UcfResponseData>,
    /// Delay handling, if set.
    pub delay: Option<UcfDelay>,
}

/// Wire value of a client action.
pub open spec fn action_wire(a: UcfAction) -> Seq<char> {
    match a {
        UcfAction::Submit => "submit"@,
        UcfAction::SubmitAsync => "submitasync"@,
        UcfAction::Enqueue => "enqueue"@,
    }
}

/// Wire value of a cardinality.
pub open spec fn cardinality_wire(c: UcfCardinality) -> Seq<char> {
    match c {
        UcfCardinality::Single => "single"@,
        UcfCardinality::Multiple => "multiple"@,
    }
}

/// Wire value of a response shape.
pub open spec fn response_wire(r: UcfResponseData) -> Seq<char> {
    match r {
        UcfResponseData::Full => "full"@,
        UcfResponseData::Delta => "delta"@,
    }
}

/// Wire value of a delay mode.
pub open spec fn delay_wire(d: UcfDelay) -> Seq<char> {
    match d {
        UcfDelay::Full => "full"@,
        UcfDelay::NoDelay => "none"@,
    }
}

/// The key/value pairs a parameter set serializes to: one pair per set
/// field, in the fixed order action, cardinality, response, delay.
pub open spec fn ucf_pairs(u: UcfParameters) -> Seq<(Seq<char>, Seq<char>)> {
    (match u.action {
        Some(a) => seq![("ClientAction"@, action_wire(a))],
        None => Seq::empty(),
    }) + (match u.enqueue_cardinality {
        Some(c) => seq![("EnqueueCardinality"@, cardinality_wire(c))],
        None => Seq::empty(),
    }) + (match u.response {
        Some(r) => seq![("ResponseData"@, response_wire(r))],
        None => Seq::empty(),
    }) + (match u.delay {
        Some(d) => seq![("Delay"@, delay_wire(d))],
        None => Seq::empty(),
    })
}

/// Whether a parameter set lets the event be batched in the queue.
pub open spec fn spec_is_enqueable(u: UcfParameters) -> bool {
    u.enqueue_cardinality is Some
}

/// Whether a parameter set forces a submit round-trip.
pub open spec fn spec_is_submitable(u: UcfParameters) -> bool {
    match u.action {
        Some(UcfAction::Submit) => true,
        Some(UcfAction::SubmitAsync) => true,
        _ => false,
    }
}

impl UcfParameters {
    /// Whether this event may be batched rather than sent at once.
    pub fn is_enqueable(&self) -> (r: bool)
        ensures
            r == spec_is_enqueable(*self),
    {
        self.enqueue_cardinality.is_some()
    }

    /// Whether this event forces a submit round-trip.
    pub fn is_submitable(&self) -> (r: bool)
        ensures
            r == spec_is_submitable(*self),
    {
        match self.action {
            Some(UcfAction::Submit) => true,
            Some(UcfAction::SubmitAsync) => true,
            _ => false,
        }
    }
}

impl Default for UcfParameters {
    /// The empty parameter set: nothing set, nothing serialized.
    fn default() -> (r: UcfParameters)
        ensures
            r.action is None,
            r.enqueue_cardinality is None,
            r.response is None,
            r.delay is None,
    {
        UcfParameters { action: None, enqueue_cardinality: None, response: None, delay: None }
    }
}

/// Assembles a [`UcfParameters`] value field by field.
#[derive(Clone, Copy, Debug)]
pub struct UcfParametersBuilder {
    /// Client action collected so far.
    pub action: Option<UcfAction>,
    /// Cardinality collected so far.
    pub enqueue_cardinality: Option<UcfCardinality>,
    /// Response shape collected so far.
    pub response: Option<UcfResponseData>,
    /// Delay mode collected so far.
    pub delay: Option<UcfDelay>,
}

/// The builder could not assemble a parameter set. It never happens — every
/// field is optional — but callers match on it.
#[derive(Debug, Clone, PartialEq, Eq)]
pub struct UcfParametersBuilderError;

impl Default for UcfParametersBuilder {
    /// A builder with nothing set.
    fn default() -> (r: UcfParametersBuilder)
        ensures
            r.action is None,
            r.enqueue_cardinality is None,
            r.response is None,
            r.delay is None,
    {
        UcfParametersBuilder { action: None, enqueue_cardinality: None, response: None, delay: None }
    }
}

impl UcfParametersBuilder {
    /// Sets the client action.
    pub fn action(self, a: Option<UcfAction>) -> (r: Self)
        ensures
            r == (UcfParametersBuilder { action: a, ..self }),
    {
        UcfParametersBuilder { action: a, ..self }
    }

    /// Sets the cardinality.
    pub fn enqueue_cardinality(self, c: Option<UcfCardinality>) -> (r: Self)
        ensures
            r == (UcfParametersBuilder { enqueue_cardinality: c, ..self }),
    {
        UcfParametersBuilder { enqueue_cardinality: c, ..self }
    }

    /// Sets the response shape.
    pub fn response(self, d: Option<UcfResponseData>) -> (r: Self)
        ensures
            r == (UcfParametersBuilder { response: d, ..self }),
    {
        UcfParametersBuilder { response: d, ..self }
    }

    /// Sets the delay mode.
    pub fn delay(self, d: Option<UcfDelay>) -> (r: Self)
        ensures
            r == (UcfParametersBuilder { delay: d, ..self }),
    {
        UcfParametersBuilder { delay: d, ..self }
    }

    /// Assembles the parameter set. Always succeeds.
    pub fn build(self) -> (r: Result<UcfParameters, UcfParametersBuilderError>)
        ensures
            r matches Ok(u) && u == (UcfParameters {
                action: self.action,
                enqueue_cardinality: self.enqueue_cardinality,
                response: self.response,
                delay: self.delay,
            }),
    {
        Ok(
            UcfParameters {
                action: self.action,
                enqueue_cardinality: self.enqueue_cardinality,
                response: self.response,
                delay: self.delay,
            },
        )
    }
}

} // verus!
