use vstd::prelude::*;

verus! {

/// A key of the keyboard, as far as the game tells keys apart.
#[derive(Clone, Copy, Debug, PartialEq, Eq, Structural)]
pub enum Key {
    Escape,
    Q,
    Other,
}

/// An input event handed to the main loop.
#[derive(Clone, Copy, Debug, PartialEq, Eq, Structural)]
pub enum LoopEvent {
    /// The window was asked to close.
    Quit,
    /// A key went down.
    KeyDown(Key),
    /// Anything else.
    Other,
}

/// An event that ends the game: a request to quit, or Escape or Q pressed.
pub open spec fn stops(e: LoopEvent) -> bool {
    e is Quit || e == LoopEvent::KeyDown(Key::Escape) || e == LoopEvent::KeyDown(Key::Q)
}

/// Whether the event ends the game.
pub fn ends_session(e: LoopEvent) -> (r: bool)
    ensures
        r == stops(e),
{
    match e {
        LoopEvent::Quit => true,
        LoopEvent::KeyDown(Key::Escape) => true,
        LoopEvent::KeyDown(Key::Q) => true,
        _ => false,
    }
}

/// Whether any of the events drained in one frame ends the game.
pub fn any_ends_session(events: &Vec<LoopEvent>) -> (r: bool)
    ensures
        r == exists|i: int| 0 <= i < events@.len() && stops(#[trigger] events@[i]),
{
    let mut i: usize = 0;
    while i < events.len()
        invariant
            0 <= i <= events@.len(),
            forall|j: int| 0 <= j < i ==> !stops(#[trigger] events@[j]),
        decreases events@.len() - i,
    {
        if ends_session(events[i]) {
            return true;
        }
        i = i + 1;
    }
    false
}

} // verus!
