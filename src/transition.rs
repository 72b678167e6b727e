use crate::channel::Channel;
use crate::state::AppState;
use vstd::prelude::*;

verus! {

/// How the stack of screens changes in answer to an event.
pub enum Transition {
    /// The new screen goes over the current one, which is kept to come back to.
    Push(AppState),
    /// Back to the screen under the current one.
    Pop,
    /// The new screen takes the current one's place.
    To(AppState),
}

/// Outside work that a screen asks for.
pub enum Effect {
    /// Check whether these channels stream; each result comes back as a status update.
    CheckChannels(Vec<Channel>),
    /// Open the viewer on a channel, and its chat when the flag says so.
    Launch(Channel, bool),
    /// End the application.
    ExitApp,
}

/// Persisted data that the next screen is built from.
#[derive(Clone, Copy, PartialEq, Eq, Structural, Debug)]
pub enum Need {
    /// The favourite channels: the home screen comes next.
    Favourites,
    /// The channel lists: the lists screen comes next.
    Lists,
}

/// How a screen answers an event.
pub enum Reaction {
    /// Nothing changes.
    Stay,
    /// The stack of screens changes.
    Go(Transition),
    /// Outside work is to be done; the screens stay.
    Run(Effect),
    /// Data is to be loaded, and the screen built from it takes the current one's place.
    Load(Need),
}

} // verus!
