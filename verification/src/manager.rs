//! The ordered list of the components of one strip: their bookkeeping, the
//! layout pass over them and the round in which an event is offered to them.

use vstd::prelude::*;
use crate::component::Component;
use crate::event::{is_round, settle, Dispatch, EventAction, EventResult, WindowEvent};
use crate::layout::{fits, place, placement, ComponentLocation, Slot};
use crate::lifecycle::{Effect, Lifecycle, Signal};
use crate::rect::Rect;

verus! {

/// What the runtime keeps of one component.
pub struct ComponentState<C> {
    /// The region the component was registered for. It never changes.
    pub location_intention: ComponentLocation,
    /// The rectangle that the latest layout pass gave the component.
    pub location: Rect,
    /// The component itself.
    pub component: C,
    /// The handle of the component's window, once it has one.
    pub window: Option<isize>,
    /// The phase of the component's life.
    pub phase: Lifecycle,
}

impl<C> ComponentState<C> {
    /// Whether the component can be measured: its surface exists and its
    /// window is known.
    pub open spec fn measurable(&self) -> bool {
        self.phase.spec_has_surface() && self.window is Some
    }

    /// Takes a signal of the runtime: moves to the next phase and returns
    /// the effect that the runtime has to carry out.
    pub fn signal(&mut self, signal: Signal) -> (effect: Effect)
        ensures
            final(self).phase == old(self).phase.spec_advance(signal).0,
            effect == old(self).phase.spec_advance(signal).1,
            final(self).location_intention == old(self).location_intention,
            final(self).location == old(self).location,
            final(self).component == old(self).component,
            final(self).window == old(self).window,
    {
        let (next, effect) = self.phase.advance(signal);
        self.phase = next;
        effect
    }

    /// Asks the component to stop. A running component starts stopping and
    /// the runtime has to join its worker; any other component stays as it
    /// is.
    pub fn stop(&mut self) -> (effect: Effect)
        ensures
            final(self).phase == old(self).phase.spec_advance(Signal::StopRequested).0,
            effect == old(self).phase.spec_advance(Signal::StopRequested).1,
            effect == Effect::JoinWorker <==> old(self).phase == Lifecycle::Running,
            final(self).location_intention == old(self).location_intention,
            final(self).location == old(self).location,
            final(self).component == old(self).component,
            final(self).window == old(self).window,
    {
        self.signal(Signal::StopRequested)
    }
}

/// The slots that a layout pass works on: the region of each component with
/// the width that was measured for it.
pub open spec fn slots_of<C>(states: Seq<ComponentState<C>>, widths: Seq<Option<i32>>) -> Seq<Slot> {
    Seq::new(states.len(), |i: int| (states[i].location_intention, widths[i]))
}

/// The rectangle of component `i` after a layout pass: its new placement
/// where the pass placed it, else the rectangle it had. A pass in which some
/// rectangle cannot be represented places nothing.
pub open spec fn location_after<C>(
    states: Seq<ComponentState<C>>,
    widths: Seq<Option<i32>>,
    strip_width: i32,
    strip_height: i32,
    gap: i32,
    i: int,
) -> Rect {
    let slots = slots_of(states, widths);
    if fits(strip_width as int, gap as int, slots) && widths[i] is Some {
        placement(strip_width as int, strip_height, gap as int, slots, i)->0
    } else {
        states[i].location
    }
}

/// The components after a layout pass: as before but for their rectangles.
pub open spec fn states_after<C>(
    states: Seq<ComponentState<C>>,
    widths: Seq<Option<i32>>,
    strip_width: i32,
    strip_height: i32,
    gap: i32,
) -> Seq<ComponentState<C>> {
    Seq::new(
        states.len(),
        |i: int|
            ComponentState {
                location: location_after(states, widths, strip_width, strip_height, gap, i),
                ..states[i]
            },
    )
}

/// The event that component `i` is offered: the message with the rectangle
/// of that component.
pub open spec fn event_for<C>(
    states: Seq<ComponentState<C>>,
    msg_code: u32,
    hwnd: isize,
    wparam: usize,
    lparam: isize,
    i: int,
) -> WindowEvent {
    WindowEvent { msg_code, hwnd, wparam, lparam, component_location: states[i].location }
}

/// The components of one strip, in the order in which they were registered.
pub struct ComponentManager<C> {
    components: Vec<ComponentState<C>>,
}

impl<C> View for ComponentManager<C> {
    type V = Seq<ComponentState<C>>;

    closed spec fn view(&self) -> Seq<ComponentState<C>> {
        self.components@
    }
}

impl<C: Component> ComponentManager<C> {
    pub fn new() -> (r: Self)
        ensures
            r@.len() == 0,
    {
        Self { components: Vec::new() }
    }

    /// The number of components.
    pub fn len(&self) -> (n: usize)
        ensures
            n == self@.len(),
    {
        self.components.len()
    }

    /// The state of component `index`, if there is one.
    pub fn get(&self, index: usize) -> (r: Option<&ComponentState<C>>)
        ensures
            index < self@.len() ==> r == Some(&self@[index as int]),
            index >= self@.len() ==> r is None,
    {
        if index < self.components.len() {
            Some(&self.components[index])
        } else {
            None
        }
    }

    /// Add a new component to be managed, behind those already there. It is
    /// registered for `location`, has no window and no rectangle yet.
    /// Returns its index.
    pub fn add(&mut self, location: ComponentLocation, component: C) -> (index: usize)
        ensures
            index == old(self)@.len(),
            final(self)@ == old(self)@.push(
                ComponentState {
                    location_intention: location,
                    location: Rect { x: 0, y: 0, width: 0, height: 0 },
                    component,
                    window: None,
                    phase: Lifecycle::Registered,
                },
            ),
    {
        let index: usize = self.components.len();
        self.components.push(
            ComponentState {
                location_intention: location,
                location: Rect { x: 0, y: 0, width: 0, height: 0 },
                component,
                window: None,
                phase: Lifecycle::Registered,
            },
        );
        index
    }

    /// Records that the surface of component `index` was created as
    /// `window`. Returns the effect to carry out: to start the worker of a
    /// component that was merely registered, nothing for any other one,
    /// whose state does not change. `None` where there is no such component.
    pub fn attach(&mut self, index: usize, window: isize) -> (effect: Option<Effect>)
        ensures
            final(self)@.len() == old(self)@.len(),
            index >= old(self)@.len() ==> effect is None && final(self)@ == old(self)@,
            index < old(self)@.len() ==> effect == Some(
                old(self)@[index as int].phase.spec_advance(Signal::SurfaceCreated).1,
            ) && final(self)@ == old(self)@.update(
                index as int,
                if old(self)@[index as int].phase == Lifecycle::Registered {
                    ComponentState {
                        window: Some(window),
                        phase: Lifecycle::SurfaceCreated,
                        ..old(self)@[index as int]
                    }
                } else {
                    old(self)@[index as int]
                },
            ),
    {
        if index >= self.components.len() {
            return None;
        }
        let effect = self.components[index].signal(Signal::SurfaceCreated);
        match effect {
            Effect::StartWorker => {
                self.components[index].window = Some(window);
            },
            _ => {},
        }
        assert(final(self)@ =~= old(self)@.update(index as int, final(self)@[index as int]));
        Some(effect)
    }

    /// Passes a signal of the runtime to component `index` and returns the
    /// effect to carry out. `None` where there is no such component.
    pub fn signal(&mut self, index: usize, signal: Signal) -> (effect: Option<Effect>)
        ensures
            final(self)@.len() == old(self)@.len(),
            index >= old(self)@.len() ==> effect is None && final(self)@ == old(self)@,
            index < old(self)@.len() ==> effect == Some(
                old(self)@[index as int].phase.spec_advance(signal).1,
            ) && final(self)@ == old(self)@.update(
                index as int,
                ComponentState {
                    phase: old(self)@[index as int].phase.spec_advance(signal).0,
                    ..old(self)@[index as int]
                },
            ),
    {
        if index >= self.components.len() {
            return None;
        }
        let effect = self.components[index].signal(signal);
        assert(final(self)@ =~= old(self)@.update(index as int, final(self)@[index as int]));
        Some(effect)
    }

    /// Takes component `index` off the list once its life is over. Returns
    /// its state, or `None`, with the list unchanged, where there is no such
    /// component or it has not stopped.
    pub fn unregister(&mut self, index: usize) -> (removed: Option<ComponentState<C>>)
        ensures
            index < old(self)@.len() && old(self)@[index as int].phase == Lifecycle::Stopped
                ==> removed == Some(old(self)@[index as int]) && final(self)@ == old(self)@.remove(
                index as int,
            ),
            !(index < old(self)@.len() && old(self)@[index as int].phase == Lifecycle::Stopped)
                ==> removed is None && final(self)@ == old(self)@,
    {
        if index >= self.components.len() {
            return None;
        }
        match self.components[index].phase {
            Lifecycle::Stopped => Some(self.components.remove(index)),
            _ => None,
        }
    }

    /// Asks every component that can be measured for its width, in the
    /// order of the list. A component that has no surface is not asked and
    /// counts as not measured.
    pub fn measure(&self, hdc: isize) -> (widths: Vec<Option<i32>>)
        ensures
            widths.len() == self@.len(),
            forall|i: int|
                0 <= i < self@.len() && !self@[i].measurable() ==> (#[trigger] widths[i]) is None,
            forall|i: int|
                0 <= i < self@.len() && self@[i].measurable() ==> self@[i].component.measures(
                    self@[i].window->0,
                    hdc,
                    #[trigger] widths[i],
                ),
    {
        let n: usize = self.components.len();
        let mut widths: Vec<Option<i32>> = Vec::new();
        let mut i: usize = 0;
        while i < n
            invariant
                i <= n,
                n == self@.len(),
                widths.len() == i,
                forall|j: int|
                    0 <= j < i && !self@[j].measurable() ==> (#[trigger] widths[j]) is None,
                forall|j: int|
                    0 <= j < i && self@[j].measurable() ==> self@[j].component.measures(
                        self@[j].window->0,
                        hdc,
                        #[trigger] widths[j],
                    ),
            decreases n - i,
        {
            let state = &self.components[i];
            let width: Option<i32> = match state.window {
                Some(window) => {
                    if state.phase.has_surface() {
                        state.component.width(window, hdc)
                    } else {
                        None
                    }
                },
                None => None,
            };
            widths.push(width);
            i += 1;
        }
        widths
    }

    /// Lays the components out with the given measurements, one for each
    /// component.
    ///
    /// Every measured component gets its new rectangle; one without a
    /// measurement keeps the rectangle it had and leaves the others as if it
    /// were not there. Where some rectangle cannot be represented the pass
    /// changes nothing and returns `false`.
    pub fn apply_layout(
        &mut self,
        strip_width: i32,
        strip_height: i32,
        gap: i32,
        widths: &Vec<Option<i32>>,
    ) -> (placed: bool)
        requires
            widths.len() == old(self)@.len(),
        ensures
            placed == fits(strip_width as int, gap as int, slots_of(old(self)@, widths@)),
            final(self)@ == states_after(old(self)@, widths@, strip_width, strip_height, gap),
    {
        let n: usize = self.components.len();
        let mut slots: Vec<Slot> = Vec::new();
        let mut i: usize = 0;
        while i < n
            invariant
                i <= n,
                n == self@.len(),
                n == widths.len(),
                slots.len() == i,
                forall|j: int| 0 <= j < i ==> slots[j] == slots_of(self@, widths@)[j],
            decreases n - i,
        {
            slots.push((self.components[i].location_intention, widths[i]));
            i += 1;
        }
        assert(slots@ =~= slots_of(self@, widths@));
        match place(strip_width, strip_height, gap, &slots) {
            None => {
                assert(final(self)@ =~= states_after(
                    old(self)@,
                    widths@,
                    strip_width,
                    strip_height,
                    gap,
                ));
                false
            },
            Some(rects) => {
                let mut k: usize = 0;
                while k < n
                    invariant
                        k <= n,
                        n == self@.len(),
                        n == old(self)@.len(),
                        n == widths.len(),
                        rects@.len() == n,
                        slots@ == slots_of(old(self)@, widths@),
                        fits(strip_width as int, gap as int, slots@),
                        forall|j: int|
                            0 <= j < n ==> rects[j] == placement(
                                strip_width as int,
                                strip_height,
                                gap as int,
                                slots@,
                                j,
                            ),
                        forall|j: int|
                            0 <= j < k ==> self@[j] == states_after(
                                old(self)@,
                                widths@,
                                strip_width,
                                strip_height,
                                gap,
                            )[j],
                        forall|j: int| k <= j < n ==> self@[j] == old(self)@[j],
                    decreases n - k,
                {
                    match rects[k] {
                        Some(rect) => {
                            self.components[k].location = rect;
                        },
                        None => {},
                    }
                    k += 1;
                }
                assert(final(self)@ =~= states_after(
                    old(self)@,
                    widths@,
                    strip_width,
                    strip_height,
                    gap,
                ));
                true
            },
        }
    }

    /// Measures the components and lays them out in a strip of the given
    /// width and height with `gap` between neighbours.
    ///
    /// Returns the measurements that the pass worked with and whether it
    /// placed the components; see [`ComponentManager::apply_layout`].
    pub fn compute_locations(&mut self, strip_width: i32, strip_height: i32, gap: i32, hdc: isize) -> (r:
        (Vec<Option<i32>>, bool))
        ensures
            r.0.len() == old(self)@.len(),
            forall|i: int|
                0 <= i < old(self)@.len() && !old(self)@[i].measurable() ==> (#[trigger] r.0[i])
                    is None,
            forall|i: int|
                0 <= i < old(self)@.len() && old(self)@[i].measurable()
                    ==> old(self)@[i].component.measures(
                    old(self)@[i].window->0,
                    hdc,
                    #[trigger] r.0[i],
                ),
            r.1 == fits(strip_width as int, gap as int, slots_of(old(self)@, r.0@)),
            final(self)@ == states_after(old(self)@, r.0@, strip_width, strip_height, gap),
    {
        let widths = self.measure(hdc);
        let placed = self.apply_layout(strip_width, strip_height, gap, &widths);
        (widths, placed)
    }

    /// The rectangles of the components, in the order of the list.
    pub fn locations(&self) -> (rects: Vec<Rect>)
        ensures
            rects.len() == self@.len(),
            forall|i: int| 0 <= i < self@.len() ==> rects[i] == self@[i].location,
    {
        let n: usize = self.components.len();
        let mut rects: Vec<Rect> = Vec::new();
        let mut i: usize = 0;
        while i < n
            invariant
                i <= n,
                n == self@.len(),
                rects.len() == i,
                forall|j: int| 0 <= j < i ==> rects[j] == self@[j].location,
            decreases n - i,
        {
            rects.push(self.components[i].location);
            i += 1;
        }
        rects
    }

    /// Offers an event to the components, in the order of the list, until
    /// one intercepts it or all have seen it.
    ///
    /// Each component is offered the message with its own rectangle.
    /// Returns the answer of the status bar and, for each component that
    /// was asked, what it answered.
    pub fn dispatch(&self, msg_code: u32, hwnd: isize, wparam: usize, lparam: isize) -> (r: (
        Dispatch,
        Vec<EventResult>,
    ))
        ensures
            r.1.len() <= self@.len(),
            is_round(r.1@),
            r.1.len() < self@.len() ==> r.1.len() > 0 && r.1@.last().action
                == EventAction::Intercept,
            forall|i: int|
                0 <= i < r.1.len() ==> self@[i].component.answers(
                    event_for(self@, msg_code, hwnd, wparam, lparam, i),
                    #[trigger] r.1[i],
                ),
            r.0 == settle(r.1@),
    {
        let n: usize = self.components.len();
        let mut answers: Vec<EventResult> = Vec::new();
        let mut outcome = Dispatch::Unhandled;
        let mut i: usize = 0;
        while i < n && !outcome.is_final()
            invariant
                i <= n,
                n == self@.len(),
                answers.len() == i,
                outcome == settle(answers@),
                outcome is Intercepted ==> i > 0 && answers@.last().action == EventAction::Intercept,
                forall|j: int|
                    0 <= j < i - 1 ==> (#[trigger] answers[j]).action != EventAction::Intercept,
                !(outcome is Intercepted) ==> forall|j: int|
                    0 <= j < i ==> (#[trigger] answers[j]).action != EventAction::Intercept,
                forall|j: int|
                    0 <= j < i ==> self@[j].component.answers(
                        event_for(self@, msg_code, hwnd, wparam, lparam, j),
                        #[trigger] answers[j],
                    ),
            decreases n - i,
        {
            let state = &self.components[i];
            let event = WindowEvent {
                msg_code,
                hwnd,
                wparam,
                lparam,
                component_location: state.location,
            };
            let answer = state.component.handle_event(event);
            let ghost before = answers@;
            answers.push(answer);
            assert(answers@.drop_last() =~= before);
            outcome = outcome.absorb(answer);
            i += 1;
        }
        (outcome, answers)
    }
}

/// A layout pass that is repeated with the same measurements changes
/// nothing: the rectangles depend on the geometry of the strip, the regions
/// and the measurements alone, and a component without a measurement keeps
/// what it had.
pub proof fn law_layout_idempotent<C>(
    states: Seq<ComponentState<C>>,
    widths: Seq<Option<i32>>,
    strip_width: i32,
    strip_height: i32,
    gap: i32,
)
    requires
        widths.len() == states.len(),
    ensures
        states_after(
            states_after(states, widths, strip_width, strip_height, gap),
            widths,
            strip_width,
            strip_height,
            gap,
        ) == states_after(states, widths, strip_width, strip_height, gap),
{
    let once = states_after(states, widths, strip_width, strip_height, gap);
    let twice = states_after(once, widths, strip_width, strip_height, gap);
    assert(slots_of(once, widths) =~= slots_of(states, widths));
    assert(twice =~= once);
}

} // verus!
