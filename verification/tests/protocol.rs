use std::sync::mpsc::channel;

use winbar::context::{WinbarAction, WinbarContext, WindowCommand};
use winbar::protocol::{process, respond, ClientMessage, ServerMessage, WinbarServerPayload};

#[test]
fn messages_name_their_actions() {
    assert_eq!(ServerMessage::UpdateWindow.action(), WinbarAction::UpdateWindow);
    assert_eq!(ServerMessage::Shutdown.action(), WinbarAction::Shutdown);
    assert_eq!(ServerMessage::ShowWindow.action(), WinbarAction::ShowWindow);
    assert_eq!(ServerMessage::HideWindow.action(), WinbarAction::HideWindow);
}

#[test]
fn actions_name_their_window_commands() {
    assert_eq!(WinbarAction::Shutdown.window_command(), WindowCommand::Close);
    assert_eq!(WinbarAction::UpdateWindow.window_command(), WindowCommand::Invalidate);
    assert_eq!(WinbarAction::ShowWindow.window_command(), WindowCommand::Show);
    assert_eq!(WinbarAction::HideWindow.window_command(), WindowCommand::Hide);
}

#[test]
fn answers_carry_the_id_of_the_request() {
    let ok = respond(7, Ok(()));
    assert_eq!(ok.id, 7);
    assert!(matches!(ok.message, ClientMessage::Success));
    let failed = respond(8, Err("closed".to_string()));
    assert_eq!(failed.id, 8);
    match failed.message {
        ClientMessage::Error(text) => assert_eq!(text, "closed"),
        ClientMessage::Success => panic!("an error was handed in"),
    }
}

#[test]
fn requests_reach_the_host() {
    let (send, recv) = channel();
    let ctx = WinbarContext::new(send);
    for (id, message, action) in [
        (1, ServerMessage::UpdateWindow, WinbarAction::UpdateWindow),
        (2, ServerMessage::ShowWindow, WinbarAction::ShowWindow),
        (3, ServerMessage::HideWindow, WinbarAction::HideWindow),
        (4, ServerMessage::Shutdown, WinbarAction::Shutdown),
    ] {
        let answer = process(&ctx, &WinbarServerPayload { id, message });
        assert_eq!(answer.id, id);
        assert!(matches!(answer.message, ClientMessage::Success));
        assert_eq!(recv.try_recv().ok(), Some(action));
    }
    assert!(recv.try_recv().is_err());
}

#[test]
fn a_host_that_is_gone_is_reported() {
    let (send, recv) = channel();
    let ctx = WinbarContext::new(send);
    drop(recv);
    assert!(ctx.request(WinbarAction::UpdateWindow).is_err());
    let answer = process(&ctx, &WinbarServerPayload { id: 9, message: ServerMessage::Shutdown });
    assert_eq!(answer.id, 9);
    match answer.message {
        ClientMessage::Error(text) => assert!(!text.is_empty()),
        ClientMessage::Success => panic!("nobody listens"),
    }
}

#[test]
fn a_cloned_context_talks_to_the_same_host() {
    let (send, recv) = channel();
    let ctx = WinbarContext::new(send);
    let second = ctx.clone();
    second.request(WinbarAction::HideWindow).unwrap();
    ctx.sender().send(WinbarAction::ShowWindow).unwrap();
    assert_eq!(recv.try_recv().ok(), Some(WinbarAction::HideWindow));
    assert_eq!(recv.try_recv().ok(), Some(WinbarAction::ShowWindow));
}
