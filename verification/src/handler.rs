//! The consume-or-bubble contract shared by every interactive component.

use vstd::prelude::*;
use vstd::std_specs::convert::FromSpecImpl;

use crate::event::Event;

verus! {

/// Outcome of offering an event to a component: either the component
/// consumed it, or it hands an event of type `E` back to its parent.
#[derive(Debug, PartialEq, Eq)]
pub enum HandleEventResult<E> {
    Handled,
    Bubbled(E),
}

impl<E> HandleEventResult<E> {
    /// The bubbled event, if any.
    pub open spec fn bubbled(self) -> Option<E> {
        match self {
            HandleEventResult::Handled => None,
            HandleEventResult::Bubbled(event) => Some(event),
        }
    }
}

impl<E> From<Option<E>> for HandleEventResult<E> {
    fn from(value: Option<E>) -> (res: Self) {
        match value {
            Some(value) => HandleEventResult::Bubbled(value),
            None => HandleEventResult::Handled,
        }
    }
}

impl<E> FromSpecImpl<Option<E>> for HandleEventResult<E> {
    open spec fn obeys_from_spec() -> bool {
        true
    }

    open spec fn from_spec(value: Option<E>) -> Self {
        match value {
            Some(value) => HandleEventResult::Bubbled(value),
            None => HandleEventResult::Handled,
        }
    }
}

impl<E> From<HandleEventResult<E>> for Option<E> {
    fn from(value: HandleEventResult<E>) -> (res: Self) {
        match value {
            HandleEventResult::Bubbled(value) => Some(value),
            HandleEventResult::Handled => None,
        }
    }
}

impl<E> FromSpecImpl<HandleEventResult<E>> for Option<E> {
    open spec fn obeys_from_spec() -> bool {
        true
    }

    open spec fn from_spec(value: HandleEventResult<E>) -> Self {
        value.bubbled()
    }
}

/// A component that can be offered input events.
///
/// A component either consumes the event or hands back an event of its
/// own [`HandleEvent::Event`] type for the parent to interpret. A parent
/// offers an event to its child first and interprets only what the child
/// bubbles.
pub trait HandleEvent {
    /// What this component bubbles to its parent.
    type Event;

    fn handle_event(&mut self, event: Event) -> (res: HandleEventResult<Self::Event>);
}

} // verus!
