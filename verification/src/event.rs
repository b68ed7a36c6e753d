//! The events that the protocol decoder hands to the screen.

use vstd::prelude::*;
use crate::model::{EventModel, groups};
use crate::screen::Screen;

verus! {

/// One event of the decoded byte stream.
#[allow(inconsistent_fields)]
#[derive(Debug, PartialEq, Eq)]
pub enum Event {
    /// A printable character to place at the cursor.
    Print(char),
    /// A control byte.
    Execute(u8),
    /// The start of a device control string.
    Hook { params: Vec<Vec<u16>>, intermediates: Vec<u8>, ignore: bool, action: char },
    /// One byte of a device control string.
    Put(u8),
    /// The end of a device control string.
    Unhook,
    /// An operating system command.
    OscDispatch { params: Vec<Vec<u8>>, bell_terminated: bool },
    /// A complete control sequence.
    CsiDispatch { params: Vec<Vec<u16>>, intermediates: Vec<u8>, ignore: bool, action: char },
    /// An escape sequence without parameters.
    EscDispatch { intermediates: Vec<u8>, ignore: bool, byte: u8 },
}

impl View for Event {
    type V = EventModel;

    open spec fn view(&self) -> EventModel {
        match *self {
            Event::Print(c) => EventModel::Print(c),
            Event::Execute(byte) => EventModel::Execute(byte),
            Event::Hook { params, intermediates, ignore, action } => EventModel::Hook {
                params: groups(params),
                intermediates: intermediates@,
                ignore,
                action,
            },
            Event::Put(byte) => EventModel::Put(byte),
            Event::Unhook => EventModel::Unhook,
            Event::OscDispatch { params, bell_terminated } => EventModel::OscDispatch {
                params: groups(params),
                bell_terminated,
            },
            Event::CsiDispatch { params, intermediates, ignore, action } => EventModel::CsiDispatch {
                params: groups(params),
                intermediates: intermediates@,
                ignore,
                action,
            },
            Event::EscDispatch { intermediates, ignore, byte } => EventModel::EscDispatch {
                intermediates: intermediates@,
                ignore,
                byte,
            },
        }
    }
}

/// The events of a list as values.
pub open spec fn events_of(events: Vec<Event>) -> Seq<EventModel> {
    Seq::new(events@.len(), |i: int| events@[i]@)
}

impl Screen {
    /// Hands one event to the rule that interprets it.
    pub fn apply(&mut self, event: &Event)
        requires
            old(self).wf(),
        ensures
            final(self).wf(),
            final(self)@ == old(self)@.apply(event@),
    {
        match event {
            Event::Print(c) => self.print(*c),
            Event::Execute(byte) => self.execute(*byte),
            Event::Hook { params, intermediates, ignore, action } => self.hook(
                params,
                intermediates,
                *ignore,
                *action,
            ),
            Event::Put(byte) => self.put(*byte),
            Event::Unhook => self.unhook(),
            Event::OscDispatch { params, bell_terminated } => self.osc_dispatch(
                params,
                *bell_terminated,
            ),
            Event::CsiDispatch { params, intermediates, ignore, action } => self.csi_dispatch(
                params,
                intermediates,
                *ignore,
                *action,
            ),
            Event::EscDispatch { intermediates, ignore, byte } => self.esc_dispatch(
                intermediates,
                *ignore,
                *byte,
            ),
        }
    }

    /// Interprets the events of a list, first to last.
    pub fn apply_all(&mut self, events: &Vec<Event>)
        requires
            old(self).wf(),
        ensures
            final(self).wf(),
            final(self)@ == old(self)@.run(events_of(*events)),
    {
        let ghost list = events_of(*events);
        let ghost before = self@;
        let mut i: usize = 0;
        while i < events.len()
            invariant
                i <= events.len(),
                list == events_of(*events),
                self.wf(),
                self@ == before.run(list.take(i as int)),
            decreases events.len() - i,
        {
            self.apply(&events[i]);
            proof {
                assert(list.take(i + 1).drop_last() =~= list.take(i as int));
            }
            i += 1;
        }
        proof {
            assert(list.take(events.len() as int) =~= list);
        }
    }
}

} // verus!
