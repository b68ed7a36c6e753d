//! The protocol decoder: the `vte` parser, with its callbacks recorded as events.
//!
//! The grammar is `vte`'s. This module declares its types to the verifier,
//! names what the parser emits, and proves that the recorder keeps every
//! callback, in order, with the arguments it came with.

use vstd::prelude::*;
use vstd::slice::slice_to_vec;
use crate::event::{Event, events_of};
use crate::model::{EventModel, groups};

verus! {

/// `vte::Parser`: the state of the escape sequence state machine. Its fields
/// are private to `vte`; the verifier sees none of them.
#[verifier::external_type_specification]
#[verifier::external_body]
pub struct ExParser<const OSC_RAW_BUF_SIZE: usize>(vte::Parser<OSC_RAW_BUF_SIZE>);

/// `vte::Params`: the parameter list that the parser hands to a control
/// sequence's callback.
#[verifier::external_type_specification]
#[verifier::external_body]
pub struct ExParams(vte::Params);

/// The groups of a `vte::Params`, first to last, each with its values in order:
/// what `Params::iter` yields.
pub uninterp spec fn params_groups(params: vte::Params) -> Seq<Seq<u16>>;

/// The callbacks that `Parser::advance` makes, in order, when a parser in the
/// given state is fed the given bytes.
pub uninterp spec fn parser_events(parser: vte::Parser, bytes: Seq<u8>) -> Seq<EventModel>;

/// Calls `Params::iter` and copies each group it yields. The contract says
/// that the copy holds the groups of the list, in order.
#[verifier::external_body]
fn params_to_groups(params: &vte::Params) -> (list: Vec<Vec<u16>>)
    ensures
        groups(list) == params_groups(*params),
{
    params.iter().map(<[u16]>::to_vec).collect()
}

/// The callbacks that `Parser::advance` makes, in order, when a parser that
/// `Parser::new` has just made is fed the given bytes.
pub uninterp spec fn first_events(bytes: Seq<u8>) -> Seq<EventModel>;

/// Calls `Parser::new`. The contract says that every parser it makes is in
/// the same state, the one before any input: what such a parser emits for
/// its first bytes depends on those bytes alone.
#[verifier::external_body]
fn parser_new() -> (parser: vte::Parser)
    ensures
        forall|bytes: Seq<u8>| #[trigger] parser_events(parser, bytes) == first_events(bytes),
{
    vte::Parser::new()
}

/// Calls `Parser::advance` with a recorder as the performer and returns what
/// was recorded. The contract says that the recorded events are the callbacks
/// that the parser made: they depend on the parser's state and the bytes alone.
/// `advance` returns for every state and every input.
#[verifier::external_body]
fn parser_advance(parser: &mut vte::Parser, bytes: &[u8]) -> (events: Vec<Event>)
    ensures
        events_of(events) == parser_events(*old(parser), bytes@),
{
    let mut log = EventLog { events: Vec::new() };
    parser.advance(&mut log, bytes);
    log.events
}

/// The performer that the parser is handed: it records each callback as an
/// event and does nothing else.
pub struct EventLog {
    events: Vec<Event>,
}

impl EventLog {
    /// The events recorded so far, oldest first.
    pub closed spec fn recorded(&self) -> Seq<EventModel> {
        events_of(self.events)
    }

    fn record(&mut self, event: Event)
        ensures
            final(self).recorded() == old(self).recorded().push(event@),
    {
        self.events.push(event);
    }
}

/// Copies the strings of an operating system command.
fn copy_strings(strings: &[&[u8]]) -> (list: Vec<Vec<u8>>)
    ensures
        groups(list) == Seq::new(strings@.len(), |i: int| strings@[i]@),
{
    let mut list: Vec<Vec<u8>> = Vec::new();
    let mut i: usize = 0;
    while i < strings.len()
        invariant
            i <= strings.len(),
            list@.len() == i,
            forall|k: int| 0 <= k < i ==> (#[trigger] list@[k])@ == strings@[k]@,
        decreases strings.len() - i,
    {
        list.push(slice_to_vec(strings[i]));
        i += 1;
    }
    list
}

impl vte::Perform for EventLog {
    fn print(&mut self, c: char)
        ensures
            final(self).recorded() == old(self).recorded().push(EventModel::Print(c)),
    {
        self.record(Event::Print(c));
    }

    fn execute(&mut self, byte: u8)
        ensures
            final(self).recorded() == old(self).recorded().push(EventModel::Execute(byte)),
    {
        self.record(Event::Execute(byte));
    }

    fn hook(&mut self, params: &vte::Params, intermediates: &[u8], ignore: bool, action: char)
        ensures
            final(self).recorded() == old(self).recorded().push(
                EventModel::Hook {
                    params: params_groups(*params),
                    intermediates: intermediates@,
                    ignore,
                    action,
                },
            ),
    {
        self.record(
            Event::Hook {
                params: params_to_groups(params),
                intermediates: slice_to_vec(intermediates),
                ignore,
                action,
            },
        );
    }

    fn put(&mut self, byte: u8)
        ensures
            final(self).recorded() == old(self).recorded().push(EventModel::Put(byte)),
    {
        self.record(Event::Put(byte));
    }

    fn unhook(&mut self)
        ensures
            final(self).recorded() == old(self).recorded().push(EventModel::Unhook),
    {
        self.record(Event::Unhook);
    }

    fn osc_dispatch(&mut self, params: &[&[u8]], bell_terminated: bool)
        ensures
            final(self).recorded() == old(self).recorded().push(
                EventModel::OscDispatch {
                    params: Seq::new(params@.len(), |i: int| params@[i]@),
                    bell_terminated,
                },
            ),
    {
        self.record(Event::OscDispatch { params: copy_strings(params), bell_terminated });
    }

    fn csi_dispatch(&mut self, params: &vte::Params, intermediates: &[u8], ignore: bool, action: char)
        ensures
            final(self).recorded() == old(self).recorded().push(
                EventModel::CsiDispatch {
                    params: params_groups(*params),
                    intermediates: intermediates@,
                    ignore,
                    action,
                },
            ),
    {
        self.record(
            Event::CsiDispatch {
                params: params_to_groups(params),
                intermediates: slice_to_vec(intermediates),
                ignore,
                action,
            },
        );
    }

    fn esc_dispatch(&mut self, intermediates: &[u8], ignore: bool, byte: u8)
        ensures
            final(self).recorded() == old(self).recorded().push(
                EventModel::EscDispatch { intermediates: intermediates@, ignore, byte },
            ),
    {
        self.record(Event::EscDispatch { intermediates: slice_to_vec(intermediates), ignore, byte });
    }
}

/// The protocol decoder. It keeps the state of a sequence that a chunk of
/// bytes left unfinished, and completes it when the next chunk arrives.
pub struct Decoder {
    parser: vte::Parser,
}

impl Decoder {
    /// The state of the parser inside.
    pub closed spec fn state(&self) -> vte::Parser {
        self.parser
    }

    /// Whether the decoder is as `new` makes it, before any input: no
    /// sequence is under way, and what it emits for the next bytes depends on
    /// those bytes alone.
    pub open spec fn is_new(&self) -> bool {
        forall|bytes: Seq<u8>| #[trigger] parser_events(self.state(), bytes) == first_events(bytes)
    }

    /// A decoder that has seen no byte yet.
    pub fn new() -> (decoder: Decoder)
        ensures
            decoder.is_new(),
    {
        Decoder { parser: parser_new() }
    }

    /// Decodes the next bytes of the stream into events.
    pub fn decode(&mut self, bytes: &[u8]) -> (events: Vec<Event>)
        ensures
            events_of(events) == parser_events(old(self).state(), bytes@),
    {
        parser_advance(&mut self.parser, bytes)
    }
}

} // verus!
