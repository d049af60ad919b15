//! User actions as structured events, and their wire serialization.
//!
//! One event names a control, an event, and string parameters; it carries
//! transport-control parameters beside them. The wire form is escape-coded:
//! fixed separator tokens frame the three parameter sections, and every
//! character outside a small plain set is written as `~` plus the
//! four-or-more-digit uppercase hex of its codepoint.

use vstd::prelude::*;

use crate::error::EventBuilderError;
use crate::event::ucf_parameters::{UcfParameters, spec_is_enqueable, spec_is_submitable, ucf_pairs};
use crate::strutil::{pairs_view, push_str_chars, string_of};

pub mod event_queue;
pub mod ucf_parameters;

verus! {

/// Separator written between two serialized events.
pub open spec fn sep_event() -> Seq<char> {
    "~E001"@
}

/// Token opening each parameter section.
pub open spec fn sep_open() -> Seq<char> {
    "~E002"@
}

/// Token closing each parameter section.
pub open spec fn sep_close() -> Seq<char> {
    "~E003"@
}

/// Separator between a key and its value.
pub open spec fn sep_keyval() -> Seq<char> {
    "~E004"@
}

/// Separator between two key/value pairs of one section.
pub open spec fn sep_item() -> Seq<char> {
    "~E005"@
}

/// Characters written as themselves: ASCII letters, digits, `-`, `.`, `_`.
pub open spec fn is_plain_char(c: char) -> bool {
    ||| 48 <= (c as u32) <= 57
    ||| 65 <= (c as u32) <= 90
    ||| 97 <= (c as u32) <= 122
    ||| (c as u32) == 45
    ||| (c as u32) == 46
    ||| (c as u32) == 95
}

/// The uppercase hex digit for a value below sixteen.
pub open spec fn hex_digit_char(d: int) -> char {
    if d == 0 {
        '0'
    } else if d == 1 {
        '1'
    } else if d == 2 {
        '2'
    } else if d == 3 {
        '3'
    } else if d == 4 {
        '4'
    } else if d == 5 {
        '5'
    } else if d == 6 {
        '6'
    } else if d == 7 {
        '7'
    } else if d == 8 {
        '8'
    } else if d == 9 {
        '9'
    } else if d == 10 {
        'A'
    } else if d == 11 {
        'B'
    } else if d == 12 {
        'C'
    } else if d == 13 {
        'D'
    } else if d == 14 {
        'E'
    } else {
        'F'
    }
}

/// Uppercase hex digits of `n`, most significant first, no leading zeros.
pub open spec fn hex_rep(n: int) -> Seq<char>
    decreases n,
{
    if n < 16 {
        seq![hex_digit_char(n)]
    } else {
        hex_rep(n / 16).push(hex_digit_char(n % 16))
    }
}

/// `k` zero characters.
pub open spec fn zeros(k: int) -> Seq<char> {
    Seq::new(k as nat, |i: int| '0')
}

/// Hex digits of `n` padded with zeros to at least four digits.
pub open spec fn hex4(n: int) -> Seq<char> {
    if hex_rep(n).len() >= 4 {
        hex_rep(n)
    } else {
        zeros(4 - hex_rep(n).len()) + hex_rep(n)
    }
}

/// The wire form of one character: itself when plain, else `~` plus the
/// padded hex of its codepoint.
pub open spec fn escape_char(c: char) -> Seq<char> {
    if is_plain_char(c) {
        seq![c]
    } else {
        seq!['~'] + hex4(c as u32 as int)
    }
}

/// The wire form of a text: each character escaped, in order.
pub open spec fn escape_seq(s: Seq<char>) -> Seq<char>
    decreases s.len(),
{
    if s.len() == 0 {
        Seq::empty()
    } else {
        escape_char(s[0]) + escape_seq(s.drop_first())
    }
}

/// The wire form of one key/value pair.
pub open spec fn ser_pair(p: (Seq<char>, Seq<char>)) -> Seq<char> {
    escape_seq(p.0) + sep_keyval() + escape_seq(p.1)
}

/// The wire form of the pairs after the first: each preceded by the item
/// separator.
pub open spec fn ser_tail(ps: Seq<(Seq<char>, Seq<char>)>) -> Seq<char>
    decreases ps.len(),
{
    if ps.len() == 0 {
        Seq::empty()
    } else {
        sep_item() + ser_pair(ps[0]) + ser_tail(ps.drop_first())
    }
}

/// The wire form of a pair list: pairs joined by the item separator.
pub open spec fn ser_pairs(ps: Seq<(Seq<char>, Seq<char>)>) -> Seq<char> {
    if ps.len() == 0 {
        Seq::empty()
    } else {
        ser_pair(ps[0]) + ser_tail(ps.drop_first())
    }
}

/// The wire form of one section: the joined pairs, framed by the open and
/// close tokens.
pub open spec fn ser_section(ps: Seq<(Seq<char>, Seq<char>)>) -> Seq<char> {
    sep_open() + ser_pairs(ps) + sep_close()
}

/// Ghost view of one event.
#[verifier::ext_equal]
pub struct EventModel {
    /// Control name.
    pub control: Seq<char>,
    /// Event name.
    pub event: Seq<char>,
    /// Plain parameters, in insertion order, keys unique.
    pub parameters: Seq<(Seq<char>, Seq<char>)>,
    /// Transport-control parameters.
    pub ucf_parameters: UcfParameters,
    /// Custom parameters, in insertion order.
    pub custom_parameters: Seq<(Seq<char>, Seq<char>)>,
}

/// The wire form of one event: `Control_Event`, then the plain parameters,
/// the transport-control pairs and the custom parameters, each as one
/// framed section.
pub open spec fn ser_event(e: EventModel) -> Seq<char> {
    e.control + seq!['_'] + e.event + ser_section(e.parameters) + ser_section(
        ucf_pairs(e.ucf_parameters),
    ) + ser_section(e.custom_parameters)
}

/// One user action, ready to be queued and serialized.
#[derive(Debug)]
pub struct Event {
    control: String,
    event: String,
    parameters: Vec<(String, String)>,
    ucf_parameters: UcfParameters,
    custom_parameters: Vec<(String, String)>,
}

impl View for Event {
    type V = EventModel;

    closed spec fn view(&self) -> EventModel {
        EventModel {
            control: self.control@,
            event: self.event@,
            parameters: pairs_view(self.parameters@),
            ucf_parameters: self.ucf_parameters,
            custom_parameters: pairs_view(self.custom_parameters@),
        }
    }
}

/// Exec counterpart of [`hex_digit_char`].
pub fn hex_digit(d: u32) -> (c: char)
    requires
        d < 16,
    ensures
        c == hex_digit_char(d as int),
{
    if d == 0 {
        '0'
    } else if d == 1 {
        '1'
    } else if d == 2 {
        '2'
    } else if d == 3 {
        '3'
    } else if d == 4 {
        '4'
    } else if d == 5 {
        '5'
    } else if d == 6 {
        '6'
    } else if d == 7 {
        '7'
    } else if d == 8 {
        '8'
    } else if d == 9 {
        '9'
    } else if d == 10 {
        'A'
    } else if d == 11 {
        'B'
    } else if d == 12 {
        'C'
    } else if d == 13 {
        'D'
    } else if d == 14 {
        'E'
    } else {
        'F'
    }
}

/// Hex digits of `n`, most significant first.
fn hex_digits(n: u32) -> (r: Vec<char>)
    ensures
        r@ == hex_rep(n as int),
    decreases n,
{
    if n < 16 {
        let mut v: Vec<char> = Vec::new();
        v.push(hex_digit(n));
        proof {
            assert(v@ =~= hex_rep(n as int));
        }
        v
    } else {
        let mut v = hex_digits(n / 16);
        v.push(hex_digit(n % 16));
        v
    }
}

/// Appends the padded hex of `n`.
fn push_hex4(out: &mut Vec<char>, n: u32)
    ensures
        final(out)@ == old(out)@ + hex4(n as int),
{
    let ds = hex_digits(n);
    let pad: usize = if ds.len() < 4 {
        4 - ds.len()
    } else {
        0
    };
    let mut k: usize = 0;
    while k < pad
        invariant
            k <= pad,
            out@ == old(out)@ + zeros(k as int),
        decreases pad - k,
    {
        out.push('0');
        k += 1;
        proof {
            assert(out@ =~= old(out)@ + zeros(k as int));
        }
    }
    crate::strutil::push_all(out, &ds);
    proof {
        assert(hex_rep(n as int).len() >= 1);
        assert(out@ =~= old(out)@ + hex4(n as int));
    }
}

/// Exec counterpart of [`is_plain_char`].
fn is_plain(c: char) -> (r: bool)
    ensures
        r == is_plain_char(c),
{
    let n = c as u32;
    (48 <= n && n <= 57) || (65 <= n && n <= 90) || (97 <= n && n <= 122) || n == 45 || n == 46
        || n == 95
}

/// Appends the escaped form of a text.
fn push_escaped(out: &mut Vec<char>, s: &str)
    ensures
        final(out)@ == old(out)@ + escape_seq(s@),
{
    let cs = crate::strutil::chars_of(s);
    let n = cs.len();
    let mut i: usize = 0;
    proof {
        assert(cs@.skip(0) =~= cs@);
    }
    while i < n
        invariant
            n == cs@.len(),
            i <= n,
            cs@ == s@,
            out@ + escape_seq(cs@.skip(i as int)) == old(out)@ + escape_seq(s@),
        decreases n - i,
    {
        let ghost pre = out@;
        proof {
            assert(cs@.skip(i as int)[0] == cs@[i as int]);
            assert(cs@.skip(i as int).drop_first() =~= cs@.skip(i as int + 1));
        }
        let c = cs[i];
        if is_plain(c) {
            out.push(c);
            proof {
                assert(pre + escape_char(c) =~= out@);
            }
        } else {
            out.push('~');
            push_hex4(out, c as u32);
            proof {
                assert(pre + escape_char(c) =~= out@);
            }
        }
        proof {
            assert(out@ + escape_seq(cs@.skip(i as int + 1)) =~= pre + escape_char(c)
                + escape_seq(cs@.skip(i as int + 1)));
            assert(escape_char(c) + escape_seq(cs@.skip(i as int + 1)) =~= escape_seq(
                cs@.skip(i as int),
            ));
            assert(pre + (escape_char(c) + escape_seq(cs@.skip(i as int + 1))) =~= pre
                + escape_char(c) + escape_seq(cs@.skip(i as int + 1)));
        }
        i += 1;
    }
    proof {
        assert(escape_seq(cs@.skip(n as int)) =~= Seq::<char>::empty());
        assert(out@ + Seq::<char>::empty() =~= out@);
    }
}

/// Appends the wire form of one pair.
fn push_pair(out: &mut Vec<char>, key: &String, value: &String)
    ensures
        final(out)@ == old(out)@ + ser_pair((key@, value@)),
{
    push_escaped(out, key.as_str());
    push_str_chars(out, "~E004");
    push_escaped(out, value.as_str());
    proof {
        assert(out@ =~= old(out)@ + ser_pair((key@, value@)));
    }
}

/// Appends one framed section of pairs.
fn push_section(out: &mut Vec<char>, pairs: &Vec<(String, String)>)
    ensures
        final(out)@ == old(out)@ + ser_section(pairs_view(pairs@)),
{
    push_str_chars(out, "~E002");
    let n = pairs.len();
    let mut i: usize = 0;
    proof {
        assert(pairs_view(pairs@).skip(0) =~= pairs_view(pairs@));
    }
    while i < n
        invariant
            n == pairs@.len(),
            i <= n,
            pairs_view(pairs@).len() == n,
            i == 0 ==> out@ == old(out)@ + sep_open(),
            i > 0 ==> out@ + ser_tail(pairs_view(pairs@).skip(i as int)) == old(out)@ + sep_open()
                + ser_pairs(pairs_view(pairs@)),
        decreases n - i,
    {
        let ghost pv = pairs_view(pairs@);
        let ghost pre = out@;
        proof {
            assert(pv.skip(i as int)[0] == pv[i as int]);
            assert(pv[i as int] == (pairs@[i as int].0@, pairs@[i as int].1@));
            assert(pv.skip(i as int).drop_first() =~= pv.skip(i as int + 1));
        }
        if i > 0 {
            push_str_chars(out, "~E005");
        }
        push_pair(out, &pairs[i].0, &pairs[i].1);
        proof {
            if i == 0 {
                assert(out@ =~= pre + ser_pair(pv[0]));
                assert(out@ + ser_tail(pv.skip(1)) =~= old(out)@ + sep_open() + (ser_pair(pv[0])
                    + ser_tail(pv.skip(1))));
                assert(ser_pair(pv[0]) + ser_tail(pv.drop_first()) == ser_pairs(pv));
                assert(pv.drop_first() =~= pv.skip(1));
            } else {
                assert(out@ =~= pre + (sep_item() + ser_pair(pv[i as int])));
                assert(out@ + ser_tail(pv.skip(i as int + 1)) =~= pre + (sep_item() + ser_pair(
                    pv[i as int],
                ) + ser_tail(pv.skip(i as int + 1))));
                assert(sep_item() + ser_pair(pv.skip(i as int)[0]) + ser_tail(
                    pv.skip(i as int).drop_first(),
                ) == ser_tail(pv.skip(i as int)));
                assert(sep_item() + ser_pair(pv[i as int]) + ser_tail(pv.skip(i as int + 1)) =~=
                    ser_tail(pv.skip(i as int)));
            }
        }
        i += 1;
    }
    proof {
        if n == 0 {
            assert(ser_pairs(pairs_view(pairs@)) =~= Seq::<char>::empty());
        } else {
            assert(ser_tail(pairs_view(pairs@).skip(n as int)) =~= Seq::<char>::empty());
        }
    }
    push_str_chars(out, "~E003");
    proof {
        assert(out@ =~= old(out)@ + ser_section(pairs_view(pairs@)));
    }
}

/// Builds the key/value pairs of a transport-control parameter set.
fn ucf_pairs_exec(u: &UcfParameters) -> (r: Vec<(String, String)>)
    ensures
        pairs_view(r@) == ucf_pairs(*u),
{
    let mut v: Vec<(String, String)> = Vec::new();
    if let Some(a) = u.action {
        let w: &str = match a {
            ucf_parameters::UcfAction::Submit => "submit",
            ucf_parameters::UcfAction::SubmitAsync => "submitasync",
            ucf_parameters::UcfAction::Enqueue => "enqueue",
        };
        v.push(("ClientAction".to_owned(), w.to_owned()));
    }
    if let Some(c) = u.enqueue_cardinality {
        let w: &str = match c {
            ucf_parameters::UcfCardinality::Single => "single",
            ucf_parameters::UcfCardinality::Multiple => "multiple",
        };
        v.push(("EnqueueCardinality".to_owned(), w.to_owned()));
    }
    if let Some(d) = u.response {
        let w: &str = match d {
            ucf_parameters::UcfResponseData::Full => "full",
            ucf_parameters::UcfResponseData::Delta => "delta",
        };
        v.push(("ResponseData".to_owned(), w.to_owned()));
    }
    if let Some(d) = u.delay {
        let w: &str = match d {
            ucf_parameters::UcfDelay::Full => "full",
            ucf_parameters::UcfDelay::NoDelay => "none",
        };
        v.push(("Delay".to_owned(), w.to_owned()));
    }
    proof {
        assert(pairs_view(v@) =~= ucf_pairs(*u));
    }
    v
}

impl Event {
    /// The wire form of this event, exactly as [`ser_event`] gives it.
    pub fn serialize(&self) -> (r: String)
        ensures
            r@ == ser_event(self@),
    {
        let mut out: Vec<char> = Vec::new();
        push_str_chars(&mut out, self.control.as_str());
        out.push('_');
        push_str_chars(&mut out, self.event.as_str());
        push_section(&mut out, &self.parameters);
        let ucf = ucf_pairs_exec(&self.ucf_parameters);
        push_section(&mut out, &ucf);
        push_section(&mut out, &self.custom_parameters);
        let s = string_of(&out);
        proof {
            assert(s@ =~= ser_event(self@));
        }
        s
    }

    /// Whether this event may be batched rather than sent at once.
    pub fn is_enqueable(&self) -> (r: bool)
        ensures
            r == spec_is_enqueable(self@.ucf_parameters),
    {
        self.ucf_parameters.is_enqueable()
    }

    /// Whether this event forces a submit round-trip.
    pub fn is_submitable(&self) -> (r: bool)
        ensures
            r == spec_is_submitable(self@.ucf_parameters),
    {
        self.ucf_parameters.is_submitable()
    }
}

/// Assembles an [`Event`] part by part; control and event names are
/// required, everything else defaults to empty.
#[derive(Debug)]
pub struct EventBuilder {
    /// Control name collected so far.
    pub control: Option<String>,
    /// Event name collected so far.
    pub event: Option<String>,
    /// Plain parameters collected so far.
    pub parameters: Option<Vec<(String, String)>>,
    /// Transport-control parameters collected so far.
    pub ucf_parameters: Option<UcfParameters>,
    /// Custom parameters collected so far.
    pub custom_parameters: Option<Vec<(String, String)>>,
}

impl Default for EventBuilder {
    /// A builder with nothing set.
    fn default() -> (r: EventBuilder)
        ensures
            r.control is None,
            r.event is None,
            r.parameters is None,
            r.ucf_parameters is None,
            r.custom_parameters is None,
    {
        EventBuilder {
            control: None,
            event: None,
            parameters: None,
            ucf_parameters: None,
            custom_parameters: None,
        }
    }
}

impl EventBuilder {
    /// Sets the control name.
    pub fn control(self, c: String) -> (r: Self)
        ensures
            r == (EventBuilder { control: Some(c), ..self }),
    {
        EventBuilder { control: Some(c), ..self }
    }

    /// Sets the event name.
    pub fn event(self, e: String) -> (r: Self)
        ensures
            r == (EventBuilder { event: Some(e), ..self }),
    {
        EventBuilder { event: Some(e), ..self }
    }

    /// Sets the plain parameters, in the order they are to be serialized.
    pub fn parameters(self, p: Vec<(String, String)>) -> (r: Self)
        ensures
            r == (EventBuilder { parameters: Some(p), ..self }),
    {
        EventBuilder { parameters: Some(p), ..self }
    }

    /// Sets the transport-control parameters.
    pub fn ucf_parameters(self, u: UcfParameters) -> (r: Self)
        ensures
            r == (EventBuilder { ucf_parameters: Some(u), ..self }),
    {
        EventBuilder { ucf_parameters: Some(u), ..self }
    }

    /// Sets the custom parameters.
    pub fn custom_parameters(self, p: Vec<(String, String)>) -> (r: Self)
        ensures
            r == (EventBuilder { custom_parameters: Some(p), ..self }),
    {
        EventBuilder { custom_parameters: Some(p), ..self }
    }

    /// Assembles the event: the control and event names are required (in
    /// that order of checking); unset parameter parts become empty, an
    /// unset transport-control part becomes the empty set.
    pub fn build(self) -> (r: Result<Event, EventBuilderError>)
        ensures
            self.control is None ==> (r matches Err(e) && e@ == "control"@),
            self.control is Some && self.event is None ==> (r matches Err(e) && e@ == "event"@),
            self.control matches Some(c) ==> self.event matches Some(ev) ==> (r matches Ok(out)
                && out@.control == c@ && out@.event == ev@ && out@.parameters == (
            match self.parameters {
                Some(p) => pairs_view(p@),
                None => Seq::<(Seq<char>, Seq<char>)>::empty(),
            }) && out@.ucf_parameters == (match self.ucf_parameters {
                Some(u) => u,
                None => (UcfParameters {
                    action: None,
                    enqueue_cardinality: None,
                    response: None,
                    delay: None,
                }),
            }) && out@.custom_parameters == (match self.custom_parameters {
                Some(p) => pairs_view(p@),
                None => Seq::<(Seq<char>, Seq<char>)>::empty(),
            })),
    {
        let control = match self.control {
            Some(c) => c,
            None => {
                return Err(err_uninitialized("control"));
            },
        };
        let event = match self.event {
            Some(e) => e,
            None => {
                return Err(err_uninitialized("event"));
            },
        };
        let parameters = match self.parameters {
            Some(p) => p,
            None => Vec::new(),
        };
        let ucf_parameters = match self.ucf_parameters {
            Some(u) => u,
            None => UcfParameters {
                action: None,
                enqueue_cardinality: None,
                response: None,
                delay: None,
            },
        };
        let custom_parameters = match self.custom_parameters {
            Some(p) => p,
            None => Vec::new(),
        };
        let out = Event { control, event, parameters, ucf_parameters, custom_parameters };
        proof {
            assert(pairs_view(Seq::<(String, String)>::empty()) =~= Seq::<(
                Seq<char>,
                Seq<char>,
            )>::empty());
        }
        Ok(out)
    }
}

/// The builder error for one missing field name.
fn err_uninitialized(name: &str) -> (r: EventBuilderError)
    ensures
        r@ == name@,
{
    EventBuilderError::UninitializedField(name.to_owned())
}

} // verus!
