//! A widget that turns chosen events into messages while it has the focus,
//! and passes every other event to the widget it wraps.
use vstd::prelude::*;

use crate::input::{Event, Key};

verus! {

/// Whether the widget has the keyboard focus.
#[derive(Clone, Copy, Debug)]
pub struct State {
    pub has_focus: bool,
}

impl State {
    pub fn new() -> (r: Self)
        ensures
            !r.has_focus,
    {
        State { has_focus: false }
    }

    pub fn is_focused(&self) -> (r: bool)
        ensures
            r == self.has_focus,
    {
        self.has_focus
    }

    pub fn focus(&mut self)
        ensures
            final(self).has_focus,
    {
        self.has_focus = true;
    }

    pub fn unfocus(&mut self)
        ensures
            !final(self).has_focus,
    {
        self.has_focus = false;
    }
}

/// What the widget does with an event.
#[derive(Clone, PartialEq, Eq, Debug)]
pub enum Catch<M> {
    /// Publish the message and stop the event here.
    Publish(M),
    /// Hand the event to the wrapped widget.
    Forward,
}

/// The widget publishes the message that the event stands for only when it
/// has the focus; otherwise the event goes to the wrapped widget.
pub fn decide<M>(produced: Option<M>, state: &State) -> (r: Catch<M>)
    ensures
        match produced {
            Some(m) => if state.has_focus {
                r == Catch::Publish(m)
            } else {
                r == Catch::<M>::Forward
            },
            None => r == Catch::<M>::Forward,
        },
{
    match produced {
        Some(msg) => if state.is_focused() {
            Catch::Publish(msg)
        } else {
            Catch::Forward
        },
        None => Catch::Forward,
    }
}

/// Turns a press of Enter into `msg`; every other event into nothing.
pub fn enter_catcher<M>(event: Event, msg: M) -> (r: Option<M>)
    ensures
        match event {
            Event::KeyPressed { key: Key::Enter, .. } => r == Some(msg),
            _ => r is None,
        },
{
    match event {
        Event::KeyPressed { key: Key::Enter, .. } => Some(msg),
        _ => None,
    }
}

} // verus!
