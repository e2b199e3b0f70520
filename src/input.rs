use vstd::prelude::*;

verus! {

/// The keys that the loop reacts to; every other key is `Other`.
#[derive(Clone, Copy, Debug, PartialEq, Eq)]
pub enum Key {
    Escape,
    Return,
    Other,
}

/// An input event as the loop sees it.
#[derive(Clone, Copy, Debug, PartialEq, Eq)]
pub enum Event {
    Quit,
    KeyDown(Key),
    Other,
}

/// What the loop does with an event.
#[derive(Clone, Copy, Debug, PartialEq, Eq)]
pub enum Command {
    /// Stop the loop.
    Quit,
    /// Perform one growth step.
    Grow,
    /// Nothing.
    Ignore,
}

/// A quit request and the Escape key both stop the loop; the Return key
/// grows the graph; everything else is ignored.
pub open spec fn command_of(e: Event) -> Command {
    match e {
        Event::Quit => Command::Quit,
        Event::KeyDown(Key::Escape) => Command::Quit,
        Event::KeyDown(Key::Return) => Command::Grow,
        _ => Command::Ignore,
    }
}

pub fn classify(e: &Event) -> (c: Command)
    ensures
        c == command_of(*e),
{
    match e {
        Event::Quit => Command::Quit,
        Event::KeyDown(Key::Escape) => Command::Quit,
        Event::KeyDown(Key::Return) => Command::Grow,
        _ => Command::Ignore,
    }
}

} // verus!
