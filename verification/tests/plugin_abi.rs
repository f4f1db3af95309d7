use winbar::event;
use winbar::plugin_abi::{EventAction, EventResult, PRect, WindowEvent};
use winbar::rect::Rect;

#[test]
fn plugin_answers_become_host_answers() {
    assert_eq!(event::EventAction::from(EventAction::Ignored), event::EventAction::Ignored);
    assert_eq!(event::EventAction::from(EventAction::Handled), event::EventAction::Handled);
    assert_eq!(event::EventAction::from(EventAction::Intercept), event::EventAction::Intercept);
    assert_eq!(
        event::EventResult::from(EventResult { action: EventAction::Intercept, result: -3 }),
        event::EventResult { action: event::EventAction::Intercept, result: -3 }
    );
}

#[test]
fn events_carry_the_component_id_to_the_plugin() {
    let host = event::WindowEvent {
        msg_code: 0x0200,
        hwnd: 77,
        wparam: 1,
        lparam: 0x0005_0019,
        component_location: Rect { x: 1, y: 2, width: 3, height: 4 },
    };
    assert_eq!(
        WindowEvent::for_component(9, host),
        WindowEvent {
            id: 9,
            msg_code: 0x0200,
            hwnd: 77,
            wparam: 1,
            lparam: 0x0005_0019,
            component_location: PRect { x: 1, y: 2, width: 3, height: 4 },
        }
    );
}
