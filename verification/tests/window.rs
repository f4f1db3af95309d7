use winbar::component::Component;
use winbar::context::WinbarContext;
use winbar::event::{EventAction, EventResult, WindowEvent};
use winbar::layout::ComponentLocation;
use winbar::manager::ComponentManager;
use winbar::rect::Rect;
use winbar::styles::StyleOptions;
use winbar::event::Dispatch;
use winbar::window::{
    answer, classify, ctrl_handler, ends_listening, pass_due, window_proc, MessageKind,
    WindowAnswer, CTRL_C_EVENT,
    RECONCILE_SECONDS, WM_ACTIVATE, WM_ACTIVATEAPP, WM_CLOSE, WM_DESTROY, WM_ERASEBKGND,
    WM_IME_SETCONTEXT, WM_MOVE, WM_NCACTIVATE, WM_NCCALCSIZE, WM_NCCREATE, WM_NCLBUTTONDOWN,
    WM_NCLBUTTONUP, WM_NOTIFY, WM_PAINT, WM_SETFOCUS, WM_SHOWWINDOW, WM_WINDOWPOSCHANGED,
    WM_WINDOWPOSCHANGING,
};

struct Fixed {
    answer: EventResult,
    styles: StyleOptions,
}

impl Component for Fixed {
    fn styles(&self) -> &StyleOptions {
        &self.styles
    }

    fn width(&self, _hwnd: isize, _hdc: isize) -> Option<i32> {
        None
    }

    fn draw(&self, _hwnd: isize, _rect: Rect, _hdc: isize) {}

    fn start(&self, _ctx: WinbarContext, _hwnd: isize) {}

    fn handle_event(&self, _event: WindowEvent) -> EventResult {
        self.answer
    }
}

fn manager_of(answers: &[EventResult]) -> ComponentManager<Fixed> {
    let mut manager = ComponentManager::new();
    for answer in answers {
        manager.add(
            ComponentLocation::Left,
            Fixed { answer: *answer, styles: StyleOptions::default() },
        );
    }
    manager
}

#[test]
fn message_codes() {
    assert_eq!(
        (WM_DESTROY, WM_MOVE, WM_ACTIVATE, WM_SETFOCUS, WM_PAINT, WM_CLOSE),
        (0x02, 0x03, 0x06, 0x07, 0x0F, 0x10)
    );
    assert_eq!(
        (WM_ERASEBKGND, WM_SHOWWINDOW, WM_ACTIVATEAPP, WM_WINDOWPOSCHANGING, WM_WINDOWPOSCHANGED),
        (0x14, 0x18, 0x1C, 0x46, 0x47)
    );
    assert_eq!(
        (WM_NOTIFY, WM_NCCREATE, WM_NCCALCSIZE, WM_NCACTIVATE, WM_NCLBUTTONDOWN, WM_NCLBUTTONUP),
        (0x4E, 0x81, 0x83, 0x86, 0xA1, 0xA2)
    );
    assert_eq!(WM_IME_SETCONTEXT, 0x281);
    assert_eq!(CTRL_C_EVENT, 0);
    assert_eq!(RECONCILE_SECONDS, 2);
}

#[test]
fn kinds_of_messages() {
    assert_eq!(classify(WM_PAINT), MessageKind::Paint);
    assert_eq!(classify(WM_ERASEBKGND), MessageKind::EraseBackground);
    assert_eq!(classify(WM_DESTROY), MessageKind::Destroy);
    for msg in [
        WM_NCCREATE,
        WM_NCCALCSIZE,
        WM_NCLBUTTONDOWN,
        WM_NCLBUTTONUP,
        WM_MOVE,
        WM_SHOWWINDOW,
        WM_WINDOWPOSCHANGING,
        WM_ACTIVATEAPP,
        WM_NCACTIVATE,
        WM_ACTIVATE,
        WM_IME_SETCONTEXT,
        WM_NOTIFY,
        WM_SETFOCUS,
        WM_WINDOWPOSCHANGED,
        WM_CLOSE,
    ] {
        assert_eq!(classify(msg), MessageKind::Platform);
    }
    for msg in [0, 1, 0x0200, 0x02A3, 0x02A0, u32::MAX] {
        assert_eq!(classify(msg), MessageKind::Component);
    }
}

#[test]
fn window_management_never_reaches_the_components() {
    let intercept = EventResult { action: EventAction::Intercept, result: 5 };
    let manager = manager_of(&[intercept]);
    assert_eq!(window_proc(&manager, 1, WM_PAINT, 0, 0), (WindowAnswer::Paint, vec![]));
    assert_eq!(window_proc(&manager, 1, WM_ERASEBKGND, 0, 0), (WindowAnswer::Value(1), vec![]));
    assert_eq!(window_proc(&manager, 1, WM_DESTROY, 0, 0), (WindowAnswer::Quit, vec![]));
    assert_eq!(window_proc(&manager, 1, WM_CLOSE, 0, 0), (WindowAnswer::Platform, vec![]));
}

#[test]
fn other_messages_are_settled_by_the_components() {
    let ignored = EventResult::ignored();
    let handled = EventResult { action: EventAction::Handled, result: 3 };
    let intercept = EventResult { action: EventAction::Intercept, result: 5 };
    assert_eq!(
        window_proc(&manager_of(&[ignored, ignored]), 1, 0x0200, 0, 0),
        (WindowAnswer::Platform, vec![ignored, ignored])
    );
    assert_eq!(
        window_proc(&manager_of(&[handled, ignored]), 1, 0x0200, 0, 0),
        (WindowAnswer::Value(3), vec![handled, ignored])
    );
    assert_eq!(
        window_proc(&manager_of(&[ignored, intercept, handled]), 1, 0x0200, 0, 0),
        (WindowAnswer::Value(5), vec![ignored, intercept])
    );
    assert_eq!(window_proc(&manager_of(&[]), 1, 0x0200, 0, 0), (WindowAnswer::Platform, vec![]));
}

#[test]
fn close_ends_the_listener() {
    assert!(ends_listening(WM_CLOSE));
    assert!(!ends_listening(WM_DESTROY));
    assert!(!ends_listening(0));
}

#[test]
fn only_ctrl_c_is_taken() {
    assert!(ctrl_handler(CTRL_C_EVENT));
    assert!(!ctrl_handler(1));
    assert!(!ctrl_handler(2));
    assert!(!ctrl_handler(6));
}

#[test]
fn answers_by_kind_of_message() {
    for outcome in [Dispatch::Unhandled, Dispatch::Handled(7), Dispatch::Intercepted(9)] {
        assert_eq!(answer(MessageKind::Paint, outcome), WindowAnswer::Paint);
        assert_eq!(answer(MessageKind::EraseBackground, outcome), WindowAnswer::Value(1));
        assert_eq!(answer(MessageKind::Destroy, outcome), WindowAnswer::Quit);
        assert_eq!(answer(MessageKind::Platform, outcome), WindowAnswer::Platform);
    }
    assert_eq!(answer(MessageKind::Component, Dispatch::Unhandled), WindowAnswer::Platform);
    assert_eq!(answer(MessageKind::Component, Dispatch::Handled(7)), WindowAnswer::Value(7));
    assert_eq!(answer(MessageKind::Component, Dispatch::Intercepted(9)), WindowAnswer::Value(9));
}

#[test]
fn a_pass_is_due_on_change_or_after_the_interval() {
    assert!(pass_due(true, 0, RECONCILE_SECONDS));
    assert!(pass_due(false, 2, RECONCILE_SECONDS));
    assert!(pass_due(false, 3, RECONCILE_SECONDS));
    assert!(!pass_due(false, 1, RECONCILE_SECONDS));
    assert!(!pass_due(false, 0, 1));
    assert!(pass_due(false, 0, 0));
}
