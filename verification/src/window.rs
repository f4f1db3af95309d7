//! What the host makes of the messages that its windows receive.

use vstd::prelude::*;
use crate::component::Component;
use crate::event::{is_round, settle, Dispatch, EventAction, EventResult};
use crate::manager::{event_for, ComponentManager};

verus! {

pub const WM_DESTROY: u32 = 2;

pub const WM_MOVE: u32 = 3;

pub const WM_ACTIVATE: u32 = 6;

pub const WM_SETFOCUS: u32 = 7;

pub const WM_PAINT: u32 = 15;

pub const WM_CLOSE: u32 = 16;

pub const WM_ERASEBKGND: u32 = 20;

pub const WM_SHOWWINDOW: u32 = 24;

pub const WM_ACTIVATEAPP: u32 = 28;

pub const WM_WINDOWPOSCHANGING: u32 = 70;

pub const WM_WINDOWPOSCHANGED: u32 = 71;

pub const WM_NOTIFY: u32 = 78;

pub const WM_NCCREATE: u32 = 129;

pub const WM_NCCALCSIZE: u32 = 131;

pub const WM_NCACTIVATE: u32 = 134;

pub const WM_NCLBUTTONDOWN: u32 = 161;

pub const WM_NCLBUTTONUP: u32 = 162;

pub const WM_IME_SETCONTEXT: u32 = 641;

/// The control event that the console sends for Ctrl+C.
pub const CTRL_C_EVENT: u32 = 0;

/// The seconds between two passes that reconcile the windows with the
/// layout.
pub const RECONCILE_SECONDS: u64 = 2;

/// What kind of message a window received.
#[derive(Clone, Copy, Debug, PartialEq, Eq, Structural)]
pub enum MessageKind {
    /// The window has to be painted.
    Paint,
    /// The background is to be erased, which the host claims to have done.
    EraseBackground,
    /// The window is being destroyed.
    Destroy,
    /// A message of window management that the platform handles itself.
    Platform,
    /// Any other message: it is offered to the components.
    Component,
}

/// The messages of window management that are left to the platform.
pub open spec fn is_platform_message(msg: u32) -> bool {
    msg == WM_NCCREATE || msg == WM_NCCALCSIZE || msg == WM_NCLBUTTONDOWN || msg
        == WM_NCLBUTTONUP || msg == WM_MOVE || msg == WM_SHOWWINDOW || msg == WM_WINDOWPOSCHANGING
        || msg == WM_ACTIVATEAPP || msg == WM_NCACTIVATE || msg == WM_ACTIVATE || msg
        == WM_IME_SETCONTEXT || msg == WM_NOTIFY || msg == WM_SETFOCUS || msg
        == WM_WINDOWPOSCHANGED || msg == WM_CLOSE
}

/// The kind of the message with code `msg`.
pub open spec fn kind_of(msg: u32) -> MessageKind {
    if msg == WM_PAINT {
        MessageKind::Paint
    } else if msg == WM_ERASEBKGND {
        MessageKind::EraseBackground
    } else if msg == WM_DESTROY {
        MessageKind::Destroy
    } else if is_platform_message(msg) {
        MessageKind::Platform
    } else {
        MessageKind::Component
    }
}

/// The kind of the message with code `msg`.
pub fn classify(msg: u32) -> (kind: MessageKind)
    ensures
        kind == kind_of(msg),
{
    if msg == WM_PAINT {
        MessageKind::Paint
    } else if msg == WM_ERASEBKGND {
        MessageKind::EraseBackground
    } else if msg == WM_DESTROY {
        MessageKind::Destroy
    } else if msg == WM_NCCREATE || msg == WM_NCCALCSIZE || msg == WM_NCLBUTTONDOWN || msg
        == WM_NCLBUTTONUP || msg == WM_MOVE || msg == WM_SHOWWINDOW || msg == WM_WINDOWPOSCHANGING
        || msg == WM_ACTIVATEAPP || msg == WM_NCACTIVATE || msg == WM_ACTIVATE || msg
        == WM_IME_SETCONTEXT || msg == WM_NOTIFY || msg == WM_SETFOCUS || msg
        == WM_WINDOWPOSCHANGED || msg == WM_CLOSE {
        MessageKind::Platform
    } else {
        MessageKind::Component
    }
}

/// Whether a layout pass is due: the layout changed, through a new window or
/// new content, or as much time has gone by since the last pass as lies
/// between two passes.
pub fn pass_due(changed: bool, since_last: u64, every: u64) -> (due: bool)
    ensures
        due == (changed || since_last >= every),
{
    changed || since_last >= every
}

/// Whether the message ends the loop that listens on a window.
pub fn ends_listening(msg: u32) -> (r: bool)
    ensures
        r == (msg == WM_CLOSE),
{
    msg == WM_CLOSE
}

/// Whether the host takes a control event of the console upon itself, which
/// it does for Ctrl+C alone: the host then shuts down.
pub fn ctrl_handler(ctrltype: u32) -> (handled: bool)
    ensures
        handled == (ctrltype == CTRL_C_EVENT),
{
    ctrltype == CTRL_C_EVENT
}

/// What the window procedure has to do with a message.
#[derive(Clone, Copy, Debug, PartialEq, Eq, Structural)]
pub enum WindowAnswer {
    /// Paint the window, then answer 0.
    Paint,
    /// Post the quit message, then answer 0.
    Quit,
    /// Answer with this value.
    Value(isize),
    /// Leave the message to the platform's default processing.
    Platform,
}

/// What the window procedure has to do, given the kind of the message and,
/// for a message that went to the components, what they made of it.
pub open spec fn answer_of(kind: MessageKind, outcome: Dispatch) -> WindowAnswer {
    match kind {
        MessageKind::Paint => WindowAnswer::Paint,
        MessageKind::EraseBackground => WindowAnswer::Value(1),
        MessageKind::Destroy => WindowAnswer::Quit,
        MessageKind::Platform => WindowAnswer::Platform,
        MessageKind::Component => match outcome {
            Dispatch::Unhandled => WindowAnswer::Platform,
            Dispatch::Handled(value) => WindowAnswer::Value(value),
            Dispatch::Intercepted(value) => WindowAnswer::Value(value),
        },
    }
}

/// What the window procedure has to do, given the kind of the message and,
/// for a message that went to the components, what they made of it.
pub fn answer(kind: MessageKind, outcome: Dispatch) -> (r: WindowAnswer)
    ensures
        r == answer_of(kind, outcome),
{
    match kind {
        MessageKind::Paint => WindowAnswer::Paint,
        MessageKind::EraseBackground => WindowAnswer::Value(1),
        MessageKind::Destroy => WindowAnswer::Quit,
        MessageKind::Platform => WindowAnswer::Platform,
        MessageKind::Component => match outcome.result() {
            Some(value) => WindowAnswer::Value(value),
            None => WindowAnswer::Platform,
        },
    }
}

/// Decides what the window procedure does with a message.
///
/// Messages of painting, destruction and window management are settled at
/// once, and no component sees them. Every other message is offered to the
/// components as [`ComponentManager::dispatch`] does; what they answered
/// comes back with the decision.
pub fn window_proc<C: Component>(
    manager: &ComponentManager<C>,
    hwnd: isize,
    msg: u32,
    wparam: usize,
    lparam: isize,
) -> (r: (WindowAnswer, Vec<EventResult>))
    ensures
        r.0 == answer_of(kind_of(msg), settle(r.1@)),
        kind_of(msg) != MessageKind::Component ==> r.1@.len() == 0,
        r.1.len() <= manager@.len(),
        is_round(r.1@),
        kind_of(msg) == MessageKind::Component && r.1.len() < manager@.len() ==> r.1.len() > 0
            && r.1@.last().action == EventAction::Intercept,
        forall|i: int|
            0 <= i < r.1.len() ==> manager@[i].component.answers(
                event_for(manager@, msg, hwnd, wparam, lparam, i),
                #[trigger] r.1[i],
            ),
{
    let kind = classify(msg);
    match kind {
        MessageKind::Component => {
            let (outcome, answers) = manager.dispatch(msg, hwnd, wparam, lparam);
            (answer(kind, outcome), answers)
        },
        _ => (answer(kind, Dispatch::Unhandled), Vec::new()),
    }
}

} // verus!
