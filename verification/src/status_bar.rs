//! One strip of the status bar: its place on the screen and its components.

use vstd::prelude::*;
use crate::component::Component;
use crate::layout::{fits, ComponentLocation};
use crate::lifecycle::Lifecycle;
use crate::manager::{slots_of, states_after, ComponentManager, ComponentState};
use crate::rect::Rect;

verus! {

/// A component with the region it is to go to.
pub struct ComponentLayout<C> {
    pub location: ComponentLocation,
    pub component: C,
}

/// A strip: where it stands on the screen, how large it is, how far its
/// components are apart, and the components themselves.
pub struct StatusBar<C> {
    /// The x value of the strip's origin on the screen.
    pub x: i32,
    /// The y value of the strip's origin on the screen.
    pub y: i32,
    pub width: i32,
    pub height: i32,
    /// The gap between neighbouring components.
    pub component_gap: i32,
    pub components: ComponentManager<C>,
}

/// The state of a component that has just been registered.
pub open spec fn registered<C>(entry: ComponentLayout<C>) -> ComponentState<C> {
    ComponentState {
        location_intention: entry.location,
        location: Rect { x: 0, y: 0, width: 0, height: 0 },
        component: entry.component,
        window: None,
        phase: Lifecycle::Registered,
    }
}

impl<C: Component> StatusBar<C> {
    /// A strip with the components of `layout`, registered in their order.
    pub fn new(
        x: i32,
        y: i32,
        width: i32,
        height: i32,
        component_gap: i32,
        layout: Vec<ComponentLayout<C>>,
    ) -> (r: Self)
        ensures
            r.x == x,
            r.y == y,
            r.width == width,
            r.height == height,
            r.component_gap == component_gap,
            r.components@ == layout@.map_values(|entry: ComponentLayout<C>| registered(entry)),
    {
        let mut components: ComponentManager<C> = ComponentManager::new();
        let ghost all = layout@;
        for entry in it: layout
            invariant
                it.seq() == all,
                components@.len() == it.index(),
                forall|j: int| 0 <= j < it.index() ==> components@[j] == registered(all[j]),
        {
            components.add(entry.location, entry.component);
        }
        assert(components@ =~= all.map_values(|entry: ComponentLayout<C>| registered(entry)));
        StatusBar { x, y, width, height, component_gap, components }
    }

    /// Measures the components and lays them out in the strip.
    ///
    /// Returns the measurements that the pass worked with and whether it
    /// placed the components. The rectangles are relative to the strip's
    /// origin.
    pub fn update_locations(&mut self, hdc: isize) -> (r: (Vec<Option<i32>>, bool))
        ensures
            final(self).x == old(self).x,
            final(self).y == old(self).y,
            final(self).width == old(self).width,
            final(self).height == old(self).height,
            final(self).component_gap == old(self).component_gap,
            r.0.len() == old(self).components@.len(),
            forall|i: int|
                0 <= i < old(self).components@.len() && !old(self).components@[i].measurable()
                    ==> (#[trigger] r.0[i]) is None,
            forall|i: int|
                0 <= i < old(self).components@.len() && old(self).components@[i].measurable()
                    ==> old(self).components@[i].component.measures(
                    old(self).components@[i].window->0,
                    hdc,
                    #[trigger] r.0[i],
                ),
            r.1 == fits(
                old(self).width as int,
                old(self).component_gap as int,
                slots_of(old(self).components@, r.0@),
            ),
            final(self).components@ == states_after(
                old(self).components@,
                r.0@,
                old(self).width,
                old(self).height,
                old(self).component_gap,
            ),
    {
        self.components.compute_locations(self.width, self.height, self.component_gap, hdc)
    }

    /// Where on the screen the window of component `index` belongs: the
    /// top left corner of its rectangle, moved by the strip's origin.
    /// `None` where there is no such component or the position cannot be
    /// represented.
    pub fn window_position(&self, index: usize) -> (r: Option<(i32, i32)>)
        ensures
            r is Some <==> index < self.components@.len() && i32::MIN <= self.x
                + self.components@[index as int].location.x <= i32::MAX && i32::MIN <= self.y
                + self.components@[index as int].location.y <= i32::MAX,
            r matches Some(at) ==> at.0 == self.x + self.components@[index as int].location.x
                && at.1 == self.y + self.components@[index as int].location.y,
    {
        match self.components.get(index) {
            None => None,
            Some(state) => {
                let x: i64 = self.x as i64 + state.location.x as i64;
                let y: i64 = self.y as i64 + state.location.y as i64;
                if x < -2147483648 || x > 2147483647 || y < -2147483648 || y > 2147483647 {
                    None
                } else {
                    Some((x as i32, y as i32))
                }
            },
        }
    }
}

} // verus!
