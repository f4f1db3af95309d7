use std::cell::Cell;
use std::sync::mpsc::channel;

use winbar::component::Component;
use winbar::context::{WinbarAction, WinbarContext};
use winbar::event::{resolve, Dispatch, EventAction, EventResult, WindowEvent};
use winbar::layout::ComponentLocation;
use winbar::manager::ComponentManager;
use winbar::rect::Rect;
use winbar::styles::StyleOptions;

const WM_MOUSEMOVE: u32 = 0x0200;

/// A component of fixed width that answers events inside its rectangle with
/// a fixed action and counts how often it was asked.
struct Probe {
    width: i32,
    action: EventAction,
    result: isize,
    inside_only: bool,
    calls: Cell<usize>,
    styles: StyleOptions,
}

impl Probe {
    fn new(width: i32, action: EventAction, result: isize, inside_only: bool) -> Self {
        Probe {
            width,
            action,
            result,
            inside_only,
            calls: Cell::new(0),
            styles: StyleOptions::default(),
        }
    }
}

impl Component for Probe {
    fn styles(&self) -> &StyleOptions {
        &self.styles
    }

    fn width(&self, _hwnd: isize, _hdc: isize) -> Option<i32> {
        Some(self.width)
    }

    fn draw(&self, _hwnd: isize, _rect: Rect, _hdc: isize) {}

    fn start(&self, ctx: WinbarContext, _hwnd: isize) {
        let _ = ctx.request(WinbarAction::UpdateWindow);
    }

    fn handle_event(&self, event: WindowEvent) -> EventResult {
        self.calls.set(self.calls.get() + 1);
        let loc = event.component_location;
        let (x, _) = event.cursor();
        let inside = x >= loc.x && x < loc.x + loc.width;
        if self.inside_only && !inside {
            EventResult::ignored()
        } else {
            EventResult { action: self.action, result: self.result }
        }
    }
}

fn two_components(a: Probe, b: Probe) -> ComponentManager<Probe> {
    let mut manager = ComponentManager::new();
    assert_eq!(manager.add(ComponentLocation::Left, a), 0);
    assert_eq!(manager.add(ComponentLocation::Left, b), 1);
    assert!(manager.apply_layout(100, 20, 0, &vec![Some(50), Some(50)]));
    assert_eq!(
        manager.locations(),
        vec![
            Rect { x: 0, y: 0, width: 50, height: 20 },
            Rect { x: 50, y: 0, width: 50, height: 20 }
        ]
    );
    manager
}

#[test]
fn handled_by_first_and_unseen_by_second_gives_first_result() {
    let manager = two_components(
        Probe::new(50, EventAction::Handled, 7, true),
        Probe::new(50, EventAction::Handled, 9, true),
    );
    let (outcome, answers) = manager.dispatch(WM_MOUSEMOVE, 1, 0, 25);
    assert_eq!(outcome, Dispatch::Handled(7));
    assert_eq!(outcome.result(), Some(7));
    assert_eq!(answers.len(), 2);
    assert_eq!(answers[0], EventResult { action: EventAction::Handled, result: 7 });
    assert_eq!(answers[1], EventResult::ignored());
    assert_eq!(manager.get(0).unwrap().component.calls.get(), 1);
    assert_eq!(manager.get(1).unwrap().component.calls.get(), 1);
}

#[test]
fn intercept_stops_the_round_before_the_second_component() {
    let manager = two_components(
        Probe::new(50, EventAction::Intercept, 7, false),
        Probe::new(50, EventAction::Handled, 9, false),
    );
    let (outcome, answers) = manager.dispatch(WM_MOUSEMOVE, 1, 0, 25);
    assert_eq!(outcome, Dispatch::Intercepted(7));
    assert_eq!(outcome.result(), Some(7));
    assert!(outcome.is_final());
    assert_eq!(answers.len(), 1);
    assert_eq!(manager.get(0).unwrap().component.calls.get(), 1);
    assert_eq!(manager.get(1).unwrap().component.calls.get(), 0);
}

#[test]
fn later_handled_replaces_the_provisional_result() {
    let manager = two_components(
        Probe::new(50, EventAction::Handled, 7, false),
        Probe::new(50, EventAction::Handled, 9, false),
    );
    let (outcome, answers) = manager.dispatch(WM_MOUSEMOVE, 1, 0, 25);
    assert_eq!(outcome, Dispatch::Handled(9));
    assert_eq!(answers.len(), 2);
}

#[test]
fn event_that_nobody_wants_is_left_to_the_platform() {
    let manager = two_components(
        Probe::new(50, EventAction::Ignored, 7, false),
        Probe::new(50, EventAction::Ignored, 9, false),
    );
    let (outcome, answers) = manager.dispatch(WM_MOUSEMOVE, 1, 0, 25);
    assert_eq!(outcome, Dispatch::Unhandled);
    assert_eq!(outcome.result(), None);
    assert!(!outcome.is_final());
    assert_eq!(answers.len(), 2);
}

#[test]
fn resolve_follows_the_rule() {
    let ignored = EventResult::ignored();
    let handled = EventResult { action: EventAction::Handled, result: 3 };
    let intercept = EventResult { action: EventAction::Intercept, result: 5 };
    assert_eq!(resolve(&vec![]), Dispatch::Unhandled);
    assert_eq!(resolve(&vec![ignored, handled, ignored]), Dispatch::Handled(3));
    assert_eq!(resolve(&vec![handled, intercept]), Dispatch::Intercepted(5));
    assert_eq!(resolve(&vec![intercept, handled]), Dispatch::Intercepted(5));
}

#[test]
fn start_reaches_the_host_through_the_context() {
    let (send, recv) = channel();
    let probe = Probe::new(1, EventAction::Ignored, 0, false);
    probe.start(WinbarContext::new(send), 0);
    assert_eq!(recv.try_recv().ok(), Some(WinbarAction::UpdateWindow));
}
