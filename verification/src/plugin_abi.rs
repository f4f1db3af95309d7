//! The values that cross the boundary between the host and a plugin module,
//! and how they map to the host's own.
//!
//! A plugin module exports a fixed set of entry points. Because one module
//! may back several components at once, every call names the component it
//! is about by its id.

use vstd::prelude::*;
use vstd::std_specs::convert::FromSpecImpl;
use crate::component::ComponentId;
use crate::event;
use crate::rect::Rect;

verus! {

/// A rectangle as a plugin takes it.
#[derive(Clone, Copy, Debug, PartialEq, Eq, Structural)]
pub struct PRect {
    /// The x value of the top left corner of the rect.
    pub x: i32,
    /// The y value of the top left corner of the rect.
    pub y: i32,
    /// The width of the rect.
    pub width: i32,
    /// The height of the rect.
    pub height: i32,
}

impl Default for PRect {
    fn default() -> (r: PRect)
        ensures
            r == (PRect { x: 0, y: 0, width: 0, height: 0 }),
    {
        PRect { x: 0, y: 0, width: 0, height: 0 }
    }
}

impl From<Rect> for PRect {
    fn from(value: Rect) -> (r: PRect) {
        PRect { x: value.x, y: value.y, width: value.width, height: value.height }
    }
}

impl FromSpecImpl<Rect> for PRect {
    open spec fn obeys_from_spec() -> bool {
        true
    }

    open spec fn from_spec(value: Rect) -> PRect {
        PRect { x: value.x, y: value.y, width: value.width, height: value.height }
    }
}

impl From<PRect> for Rect {
    fn from(value: PRect) -> (r: Rect) {
        Rect { x: value.x, y: value.y, width: value.width, height: value.height }
    }
}

impl FromSpecImpl<PRect> for Rect {
    open spec fn obeys_from_spec() -> bool {
        true
    }

    open spec fn from_spec(value: PRect) -> Rect {
        Rect { x: value.x, y: value.y, width: value.width, height: value.height }
    }
}

/// What a plugin says of the configuration it was given.
#[derive(Clone, Debug)]
pub struct LoadConfigResult {
    /// Whether the plugin accepted the configuration.
    pub ok: bool,
    /// Why it did not.
    pub error_msg: String,
}

/// What a plugin did with an event.
#[derive(Clone, Copy, Debug, PartialEq, Eq, Structural)]
pub enum EventAction {
    Ignored,
    Handled,
    Intercept,
}

/// A plugin's answer to an event.
#[derive(Clone, Copy, Debug, PartialEq, Eq, Structural)]
pub struct EventResult {
    pub action: EventAction,
    pub result: isize,
}

/// A window message as a plugin receives it.
#[derive(Clone, Copy, Debug, PartialEq, Eq, Structural)]
pub struct WindowEvent {
    /// The component the event is offered to.
    pub id: ComponentId,
    pub msg_code: u32,
    pub hwnd: isize,
    pub wparam: usize,
    pub lparam: isize,
    pub component_location: PRect,
}

/// The host's name for what a plugin did with an event.
pub open spec fn host_action(value: EventAction) -> event::EventAction {
    match value {
        EventAction::Ignored => event::EventAction::Ignored,
        EventAction::Handled => event::EventAction::Handled,
        EventAction::Intercept => event::EventAction::Intercept,
    }
}

impl From<EventAction> for event::EventAction {
    fn from(value: EventAction) -> (r: event::EventAction) {
        match value {
            EventAction::Ignored => event::EventAction::Ignored,
            EventAction::Handled => event::EventAction::Handled,
            EventAction::Intercept => event::EventAction::Intercept,
        }
    }
}

impl FromSpecImpl<EventAction> for event::EventAction {
    open spec fn obeys_from_spec() -> bool {
        true
    }

    open spec fn from_spec(value: EventAction) -> event::EventAction {
        host_action(value)
    }
}

impl From<EventResult> for event::EventResult {
    fn from(value: EventResult) -> (r: event::EventResult) {
        event::EventResult { action: event::EventAction::from(value.action), result: value.result }
    }
}

impl FromSpecImpl<EventResult> for event::EventResult {
    open spec fn obeys_from_spec() -> bool {
        true
    }

    open spec fn from_spec(value: EventResult) -> event::EventResult {
        event::EventResult { action: host_action(value.action), result: value.result }
    }
}

impl WindowEvent {
    /// The event as the plugin behind component `id` receives it.
    pub fn for_component(id: ComponentId, event: event::WindowEvent) -> (r: WindowEvent)
        ensures
            r.id == id,
            r.msg_code == event.msg_code,
            r.hwnd == event.hwnd,
            r.wparam == event.wparam,
            r.lparam == event.lparam,
            r.component_location == (PRect {
                x: event.component_location.x,
                y: event.component_location.y,
                width: event.component_location.width,
                height: event.component_location.height,
            }),
    {
        WindowEvent {
            id,
            msg_code: event.msg_code,
            hwnd: event.hwnd,
            wparam: event.wparam,
            lparam: event.lparam,
            component_location: PRect::from(event.component_location),
        }
    }
}

} // verus!
