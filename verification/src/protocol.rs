//! What a stream of events must look like to its receiver: every press is released
//! once, and every pinch starts, moves and ends.

use crate::input::{MouseButton, PlatformInput, TouchPhase};
use vstd::prelude::*;

verus! {

/// What a receiver knows of the mouse buttons.
pub enum Buttons {
    /// No button is held.
    Free,
    /// This button is held.
    Held(MouseButton),
    /// A button was pressed while one was held, or released without being held.
    Broken,
}

impl Buttons {
    pub open spec fn after(self, event: PlatformInput) -> Buttons {
        match event {
            PlatformInput::MouseDown(down) => if self is Free {
                Buttons::Held(down.button)
            } else {
                Buttons::Broken
            },
            PlatformInput::MouseUp(up) => if self == Buttons::Held(up.button) {
                Buttons::Free
            } else {
                Buttons::Broken
            },
            _ => self,
        }
    }

    pub open spec fn after_all(self, events: Seq<PlatformInput>) -> Buttons
        decreases events.len(),
    {
        if events.len() == 0 {
            self
        } else {
            self.after_all(events.drop_last()).after(events.last())
        }
    }
}

/// What a receiver knows of a pinch.
pub enum Pinching {
    Idle,
    Active,
    /// A pinch started while one was under way, or moved or ended without one, or
    /// changed the scale with its first or last event.
    Broken,
}

impl Pinching {
    pub open spec fn after(self, event: PlatformInput) -> Pinching {
        match event {
            PlatformInput::Pinch(pinch) => match pinch.phase {
                TouchPhase::Started => if self is Idle && pinch.delta is Unchanged {
                    Pinching::Active
                } else {
                    Pinching::Broken
                },
                TouchPhase::Moved => if self is Active {
                    Pinching::Active
                } else {
                    Pinching::Broken
                },
                TouchPhase::Ended => if self is Active && pinch.delta is Unchanged {
                    Pinching::Idle
                } else {
                    Pinching::Broken
                },
            },
            _ => self,
        }
    }

    pub open spec fn after_all(self, events: Seq<PlatformInput>) -> Pinching
        decreases events.len(),
    {
        if events.len() == 0 {
            self
        } else {
            self.after_all(events.drop_last()).after(events.last())
        }
    }
}

/// Whether no event of the sequence is a scroll.
pub open spec fn scrolls_nothing(events: Seq<PlatformInput>) -> bool {
    forall|i: int| 0 <= i < events.len() ==> !(#[trigger] events[i] is ScrollWheel)
}

/// Whether no event of the sequence is a pinch.
pub open spec fn pinches_nothing(events: Seq<PlatformInput>) -> bool {
    forall|i: int| 0 <= i < events.len() ==> !(#[trigger] events[i] is Pinch)
}

/// Two streams after one another are seen one after the other.
pub proof fn lemma_buttons_concat(buttons: Buttons, a: Seq<PlatformInput>, b: Seq<PlatformInput>)
    ensures
        buttons.after_all(a + b) == buttons.after_all(a).after_all(b),
    decreases b.len(),
{
    if b.len() == 0 {
        assert(a + b =~= a);
    } else {
        assert((a + b).drop_last() =~= a + b.drop_last());
        lemma_buttons_concat(buttons, a, b.drop_last());
    }
}

pub proof fn lemma_pinching_concat(pinching: Pinching, a: Seq<PlatformInput>, b: Seq<PlatformInput>)
    ensures
        pinching.after_all(a + b) == pinching.after_all(a).after_all(b),
    decreases b.len(),
{
    if b.len() == 0 {
        assert(a + b =~= a);
    } else {
        assert((a + b).drop_last() =~= a + b.drop_last());
        lemma_pinching_concat(pinching, a, b.drop_last());
    }
}

/// A stream of up to three events, event by event.
pub proof fn lemma_buttons_few(buttons: Buttons, events: Seq<PlatformInput>)
    requires
        events.len() <= 3,
    ensures
        events.len() == 0 ==> buttons.after_all(events) == buttons,
        events.len() == 1 ==> buttons.after_all(events) == buttons.after(events[0]),
        events.len() == 2 ==> buttons.after_all(events) == buttons.after(events[0]).after(
            events[1],
        ),
        events.len() == 3 ==> buttons.after_all(events) == buttons.after(events[0]).after(
            events[1],
        ).after(events[2]),
{
    reveal_with_fuel(Buttons::after_all, 4);
}

pub proof fn lemma_pinching_few(pinching: Pinching, events: Seq<PlatformInput>)
    requires
        events.len() <= 3,
    ensures
        events.len() == 0 ==> pinching.after_all(events) == pinching,
        events.len() == 1 ==> pinching.after_all(events) == pinching.after(events[0]),
        events.len() == 2 ==> pinching.after_all(events) == pinching.after(events[0]).after(
            events[1],
        ),
        events.len() == 3 ==> pinching.after_all(events) == pinching.after(events[0]).after(
            events[1],
        ).after(events[2]),
{
    reveal_with_fuel(Pinching::after_all, 4);
}

/// A stream without pinches leaves a pinch as it is.
pub proof fn lemma_pinching_untouched(pinching: Pinching, events: Seq<PlatformInput>)
    requires
        pinches_nothing(events),
    ensures
        pinching.after_all(events) == pinching,
    decreases events.len(),
{
    if events.len() > 0 {
        assert(pinches_nothing(events.drop_last()));
        assert(!(events[events.len() - 1] is Pinch));
        lemma_pinching_untouched(pinching, events.drop_last());
    }
}

} // verus!
