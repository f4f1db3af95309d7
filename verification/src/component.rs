//! What a component is to the runtime, and the components that ship with
//! the status bar.

use vstd::prelude::*;
use crate::context::WinbarContext;
use crate::event::{EventResult, WindowEvent};
use crate::rect::Rect;
use crate::styles::StyleOptions;

verus! {

/// The capabilities of a component, whether it is built in or backed by a
/// plugin.
///
/// Windows and drawing contexts are passed as the plain values of their
/// handles.
pub trait Component {
    /// `width` is a measurement that the component may give for the window
    /// `hwnd` and the drawing context `hdc`. A component that says nothing
    /// may give any.
    open spec fn measures(&self, hwnd: isize, hdc: isize, width: Option<i32>) -> bool {
        true
    }

    /// `result` is an answer that the component may give to `event`. A
    /// component that says nothing may give any.
    open spec fn answers(&self, event: WindowEvent, result: EventResult) -> bool {
        true
    }

    /// The styles of the component.
    fn styles(&self) -> &StyleOptions;

    /// The width of the component, or `None` while it cannot be measured.
    fn width(&self, hwnd: isize, hdc: isize) -> (width: Option<i32>)
        ensures
            self.measures(hwnd, hdc, width),
    ;

    /// Draw the component. Note this this method is responsible for cleanup
    /// of any objects it creates.
    fn draw(&self, hwnd: isize, rect: Rect, hdc: isize);

    /// Start any logic related to the component. The call may last as long
    /// as the component lives; the runtime makes it on a thread of its own.
    fn start(&self, ctx: WinbarContext, hwnd: isize);

    /// React to an event. A component that does not react answers with
    /// [`EventResult::ignored`].
    fn handle_event(&self, event: WindowEvent) -> (result: EventResult)
        ensures
            self.answers(event, result),
    ;
}

/// Tells apart the components that one plugin module backs.
pub type ComponentId = u32;

/// The source of component ids: each id is issued once, in rising order.
pub struct ComponentIds {
    next: u32,
}

impl ComponentIds {
    /// The id that is issued next.
    pub closed spec fn upcoming(&self) -> u32 {
        self.next
    }

    /// A source that has issued no id yet.
    pub fn new() -> (r: Self)
        ensures
            r.upcoming() == 0,
    {
        ComponentIds { next: 0 }
    }

    /// A source that issues `first` next, and then the ids above it.
    pub fn starting_at(first: ComponentId) -> (r: Self)
        ensures
            r.upcoming() == first,
    {
        ComponentIds { next: first }
    }

    /// Issues the next id. Returns `None`, and changes nothing, once the ids
    /// are used up.
    pub fn issue(&mut self) -> (id: Option<ComponentId>)
        ensures
            old(self).upcoming() < u32::MAX ==> id == Some(old(self).upcoming())
                && final(self).upcoming() == old(self).upcoming() + 1,
            old(self).upcoming() == u32::MAX ==> id is None
                && final(self).upcoming() == old(self).upcoming(),
    {
        if self.next == u32::MAX {
            None
        } else {
            let id: u32 = self.next;
            self.next = id + 1;
            Some(id)
        }
    }
}

/// A component that shows a fixed text.
#[derive(Clone, Debug)]
pub struct StaticTextComponent {
    pub text: String,
    pub styles: StyleOptions,
}

impl StaticTextComponent {
    pub fn new(text: String, styles: StyleOptions) -> (r: Self)
        ensures
            r.text == text,
            r.styles == styles,
    {
        Self { text, styles }
    }

    /// The width of the component when its text is `extent` wide.
    pub fn width_for(&self, extent: i32) -> (r: Option<i32>)
        ensures
            r is Some <==> i32::MIN <= extent + self.styles.padding_x * 2 <= i32::MAX,
            r matches Some(w) ==> w == extent + self.styles.padding_x * 2,
    {
        self.styles.padded_width(extent)
    }
}

/// Formats the local time of this moment with `chrono`: `Local::now`, then
/// `DateTime::format` with `format`, written out with
/// `DelayedFormat::write_to`.
///
/// The text depends on the clock and the time zone of the machine, so
/// nothing is claimed of it. `None` stands for the error that `write_to`
/// reports, which it does for a format that `chrono` does not accept.
/// `Local::now` gives up on a machine whose clock stands before 1970.
#[verifier::external_body]
fn local_time_text(format: &str) -> Option<String> {
    let mut text = String::new();
    match chrono::Local::now().format(format).write_to(&mut text) {
        Ok(()) => Some(text),
        Err(_) => None,
    }
}

/// A component that shows the local date and time.
#[derive(Clone, Debug)]
pub struct DateTimeComponent {
    /// How to write the time, in the notation of `strftime`.
    pub format: String,
    pub styles: StyleOptions,
}

impl DateTimeComponent {
    pub fn new(format: String, styles: StyleOptions) -> (r: Self)
        ensures
            r.format == format,
            r.styles == styles,
    {
        Self { format, styles }
    }

    /// The text to show at this moment, or `None` where the format cannot
    /// be written out.
    pub fn text(&self) -> Option<String> {
        local_time_text(self.format.as_str())
    }

    /// The width of the component when its text is `extent` wide.
    pub fn width_for(&self, extent: i32) -> (r: Option<i32>)
        ensures
            r is Some <==> i32::MIN <= extent + self.styles.padding_x * 2 <= i32::MAX,
            r matches Some(w) ==> w == extent + self.styles.padding_x * 2,
    {
        self.styles.padded_width(extent)
    }
}

} // verus!
