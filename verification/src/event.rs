//! Input events and the rule by which the answers of components are
//! combined into the answer of the status bar.
//!
//! An event is offered to the components in the order in which they were
//! registered. A component ignores it, handles it or intercepts it. The
//! result of the latest component that handled the event is the provisional
//! answer; an intercept ends the round at once with the result of the
//! component that intercepted. Where no component handled or intercepted,
//! the event is left to the platform's default processing.

use vstd::prelude::*;
use crate::rect::Rect;

verus! {

/// What a component did with an event.
#[derive(Clone, Copy, Debug, PartialEq, Eq, Structural)]
pub enum EventAction {
    /// The component did not react; the next component is asked.
    Ignored,
    /// The component reacted; the next component is asked all the same.
    Handled,
    /// The component reacted and no other component may see the event.
    Intercept,
}

/// A component's answer to an event: what it did and the value to hand back
/// to the windowing layer.
#[derive(Clone, Copy, Debug, PartialEq, Eq, Structural)]
pub struct EventResult {
    pub action: EventAction,
    pub result: isize,
}

impl EventResult {
    /// The answer of a component that does not react.
    pub fn ignored() -> (r: EventResult)
        ensures
            r == (EventResult { action: EventAction::Ignored, result: 0 }),
    {
        EventResult { action: EventAction::Ignored, result: 0 }
    }
}

/// A window message as a component receives it, together with the
/// rectangle that the component occupies at that moment.
#[derive(Clone, Copy, Debug, PartialEq, Eq, Structural)]
pub struct WindowEvent {
    /// The message code.
    pub msg_code: u32,
    /// The window that received the message.
    pub hwnd: isize,
    /// The first message parameter.
    pub wparam: usize,
    /// The second message parameter; for mouse messages it carries the
    /// position of the cursor.
    pub lparam: isize,
    /// The rectangle of the component that is asked.
    pub component_location: Rect,
}

impl WindowEvent {
    /// The x value of the cursor in a mouse message: the low 16 bits of
    /// `lparam`.
    pub open spec fn spec_cursor_x(&self) -> i32 {
        (self.lparam & 0xFFFF) as i32
    }

    /// The y value of the cursor in a mouse message: bits 16 to 31 of
    /// `lparam`.
    pub open spec fn spec_cursor_y(&self) -> i32 {
        ((self.lparam >> 16) & 0xFFFF) as i32
    }

    /// The position of the cursor that a mouse message carries.
    pub fn cursor(&self) -> (r: (i32, i32))
        ensures
            r.0 == self.spec_cursor_x(),
            r.1 == self.spec_cursor_y(),
            0 <= r.0 <= 0xFFFF,
            0 <= r.1 <= 0xFFFF,
    {
        let l: isize = self.lparam;
        let x: isize = l & 0xFFFF;
        let y: isize = (l >> 16) & 0xFFFF;
        assert(0 <= l & 0xFFFF <= 0xFFFF) by (bit_vector);
        assert(0 <= (l >> 16) & 0xFFFF <= 0xFFFF) by (bit_vector);
        (x as i32, y as i32)
    }

    /// Whether the cursor of a mouse message lies strictly inside the
    /// rectangle of the component that is asked.
    pub fn is_over_component(&self) -> (r: bool)
        ensures
            r == self.component_location.spec_contains(
                self.spec_cursor_x() as int,
                self.spec_cursor_y() as int,
            ),
    {
        let (x, y) = self.cursor();
        self.component_location.contains(x, y)
    }
}

/// The answer of the status bar to an event, as far as the components asked
/// so far have settled it.
#[derive(Clone, Copy, Debug, PartialEq, Eq, Structural)]
pub enum Dispatch {
    /// No component reacted: the platform's default processing applies.
    Unhandled,
    /// The latest component that handled the event gave this result.
    Handled(isize),
    /// A component intercepted the event with this result; the round is over.
    Intercepted(isize),
}

impl Dispatch {
    /// The answer after one more component has given `result`. Once a
    /// component has intercepted, later results change nothing.
    pub open spec fn spec_absorb(self, result: EventResult) -> Dispatch {
        match self {
            Dispatch::Intercepted(_) => self,
            _ => match result.action {
                EventAction::Ignored => self,
                EventAction::Handled => Dispatch::Handled(result.result),
                EventAction::Intercept => Dispatch::Intercepted(result.result),
            },
        }
    }

    /// Takes the result of the next component.
    pub fn absorb(self, result: EventResult) -> (r: Dispatch)
        ensures
            r == self.spec_absorb(result),
    {
        match self {
            Dispatch::Intercepted(_) => self,
            _ => match result.action {
                EventAction::Ignored => self,
                EventAction::Handled => Dispatch::Handled(result.result),
                EventAction::Intercept => Dispatch::Intercepted(result.result),
            },
        }
    }

    /// Whether the round is over: no further component may be asked.
    pub fn is_final(&self) -> (r: bool)
        ensures
            r == (*self is Intercepted),
    {
        match self {
            Dispatch::Intercepted(_) => true,
            _ => false,
        }
    }

    /// The value to hand back to the windowing layer, or `None` where the
    /// platform's default processing has to give it.
    pub fn result(&self) -> (r: Option<isize>)
        ensures
            r == match *self {
                Dispatch::Unhandled => None,
                Dispatch::Handled(v) => Some(v),
                Dispatch::Intercepted(v) => Some(v),
            },
    {
        match self {
            Dispatch::Unhandled => None,
            Dispatch::Handled(v) => Some(*v),
            Dispatch::Intercepted(v) => Some(*v),
        }
    }
}

/// The answer that the results of the components asked, in order, add up to.
pub open spec fn settle(results: Seq<EventResult>) -> Dispatch
    decreases results.len(),
{
    if results.len() == 0 {
        Dispatch::Unhandled
    } else {
        settle(results.drop_last()).spec_absorb(results.last())
    }
}

/// The results of one round in which the event was offered as the rule
/// demands: no component was asked after one that intercepted.
pub open spec fn is_round(results: Seq<EventResult>) -> bool {
    forall|i: int|
        0 <= i < results.len() - 1 ==> (#[trigger] results[i]).action != EventAction::Intercept
}

/// Combines the results of one round into the answer of the status bar.
pub fn resolve(results: &Vec<EventResult>) -> (r: Dispatch)
    ensures
        r == settle(results@),
{
    let n: usize = results.len();
    let mut outcome = Dispatch::Unhandled;
    let mut i: usize = 0;
    while i < n
        invariant
            i <= n,
            n == results.len(),
            outcome == settle(results@.take(i as int)),
        decreases n - i,
    {
        assert(results@.take(i + 1).drop_last() =~= results@.take(i as int));
        outcome = outcome.absorb(results[i]);
        i += 1;
    }
    assert(results@.take(n as int) =~= results@);
    outcome
}

/// In a round the answer is that of the component that intercepted, if the
/// last one asked did; else that of the latest component that handled the
/// event; else the event is unhandled.
pub proof fn law_settle(results: Seq<EventResult>)
    requires
        is_round(results),
    ensures
        results.len() > 0 && results.last().action == EventAction::Intercept ==> settle(results)
            == Dispatch::Intercepted(results.last().result),
        results.len() > 0 && results.last().action == EventAction::Handled ==> settle(results)
            == Dispatch::Handled(results.last().result),
        results.len() > 0 && results.last().action == EventAction::Ignored ==> settle(results)
            == settle(results.drop_last()),
        (forall|i: int| 0 <= i < results.len() ==> (#[trigger] results[i]).action
            == EventAction::Ignored) ==> settle(results) == Dispatch::Unhandled,
        !(settle(results) is Intercepted) <==> (forall|i: int|
            0 <= i < results.len() ==> (#[trigger] results[i]).action != EventAction::Intercept),
    decreases results.len(),
{
    if results.len() > 0 {
        let before = results.drop_last();
        assert forall|i: int| 0 <= i < before.len() - 1 implies (#[trigger] before[i]).action
            != EventAction::Intercept by {
            assert(before[i] == results[i]);
        }
        law_settle(before);
        assert forall|i: int| 0 <= i < before.len() implies (#[trigger] before[i]).action
            != EventAction::Intercept by {
            assert(before[i] == results[i]);
        }
        if forall|i: int|
            0 <= i < results.len() ==> (#[trigger] results[i]).action == EventAction::Ignored {
            assert forall|i: int| 0 <= i < before.len() implies (#[trigger] before[i]).action
                == EventAction::Ignored by {
                assert(before[i] == results[i]);
            }
        }
    }
}

} // verus!
