//! The channel on which components and the control server ask the host for
//! an action.

use vstd::prelude::*;
use std::sync::mpsc::Sender;

verus! {

/// What the host can be asked to do with a status bar.
#[derive(Clone, Copy, Debug, PartialEq, Eq, Structural)]
pub enum WinbarAction {
    Shutdown,
    UpdateWindow,
    ShowWindow,
    HideWindow,
}

/// What the host does to a window in answer to an action.
#[derive(Clone, Copy, Debug, PartialEq, Eq, Structural)]
pub enum WindowCommand {
    /// Post the close message to the window.
    Close,
    /// Invalidate the whole window, background included, so that it is
    /// painted again.
    Invalidate,
    /// Show the window.
    Show,
    /// Hide the window.
    Hide,
}

impl WinbarAction {
    /// The command that carries out the action on a window.
    pub open spec fn spec_window_command(self) -> WindowCommand {
        match self {
            WinbarAction::Shutdown => WindowCommand::Close,
            WinbarAction::UpdateWindow => WindowCommand::Invalidate,
            WinbarAction::ShowWindow => WindowCommand::Show,
            WinbarAction::HideWindow => WindowCommand::Hide,
        }
    }

    /// The command that carries out the action on a window.
    pub fn window_command(self) -> (r: WindowCommand)
        ensures
            r == self.spec_window_command(),
    {
        match self {
            WinbarAction::Shutdown => WindowCommand::Close,
            WinbarAction::UpdateWindow => WindowCommand::Invalidate,
            WinbarAction::ShowWindow => WindowCommand::Show,
            WinbarAction::HideWindow => WindowCommand::Hide,
        }
    }
}

/// The sending half of a channel of the standard library. Nothing is known
/// of what it holds.
#[verifier::external_type_specification]
#[verifier::external_body]
#[verifier::reject_recursive_types(T)]
pub struct ExSender<T>(Sender<T>);

/// Calls `Sender::send`. The call fails when the receiving half of the
/// channel is gone, which nothing here can tell beforehand; the error's text
/// is handed back.
#[verifier::external_body]
fn send_on(sender: &Sender<WinbarAction>, action: WinbarAction) -> Result<(), String> {
    sender.send(action).map_err(|e| e.to_string())
}

/// `Clone::clone` of `Sender` gives another handle to the same channel.
/// Nothing is claimed of it.
pub assume_specification<T>[ <Sender<T> as Clone>::clone ](sender: &Sender<T>) -> Sender<T>;

/// What a component gets from the host to talk back to it.
#[derive(Clone)]
pub struct WinbarContext {
    sender: Sender<WinbarAction>,
}

impl WinbarContext {
    /// The channel the context sends on.
    pub closed spec fn channel(&self) -> Sender<WinbarAction> {
        self.sender
    }

    pub fn new(sender: Sender<WinbarAction>) -> (r: Self)
        ensures
            r.channel() == sender,
    {
        Self { sender }
    }

    /// The channel the context sends on.
    pub fn sender(&self) -> (r: &Sender<WinbarAction>)
        ensures
            *r == self.channel(),
    {
        &self.sender
    }

    /// Asks the host for `action`. Whether the host still listens is not
    /// known beforehand: on failure the reason comes back as text.
    pub fn request(&self, action: WinbarAction) -> Result<(), String> {
        send_on(&self.sender, action)
    }
}

} // verus!
