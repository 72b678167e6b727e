use crate::event::Event;
use crate::transition::Reaction;
use vstd::prelude::*;

verus! {

/// The final screen: it asks the application to end on every tick.
#[derive(Clone, Copy, PartialEq, Eq, Structural, Debug)]
pub struct Exit;

impl Exit {
    pub fn new() -> (r: Exit)
        ensures
            r == Exit,
    {
        Exit
    }

    pub fn tick(&self, tx: &mut Vec<Event>)
        ensures
            final(tx)@ == old(tx)@.push(Event::Exited),
    {
        tx.push(Event::Exited);
    }

    pub fn transition(&self, event: Event, tx: &mut Vec<Event>) -> (r: Reaction)
        ensures
            r is Stay,
            final(tx)@ == old(tx)@,
    {
        Reaction::Stay
    }
}

} // verus!
