//! What the debug menu does to the state of the engine.

use vstd::prelude::*;

verus! {

/// The switches of the debug menu.
#[derive(Clone, Copy, Debug, PartialEq, Eq, Structural)]
pub struct DebugUiComponent {
    pub show_profiler: bool,
    pub terrain_wireframe: bool,
}

impl DebugUiComponent {
    pub fn create() -> (component: Self)
        ensures
            component == (DebugUiComponent { show_profiler: false, terrain_wireframe: false }),
    {
        DebugUiComponent { show_profiler: false, terrain_wireframe: false }
    }
}

/// Which buttons of the debug menu were clicked in a frame.
#[derive(Clone, Copy, Debug, PartialEq, Eq, Structural)]
pub struct DebugUiClicks {
    pub new: bool,
    pub open: bool,
    pub save: bool,
    pub close: bool,
    pub toggle_profiling: bool,
    pub toggle_wireframe: bool,
}

/// The switches after a frame of clicks: each toggle button flips its
/// switch.
pub open spec fn after_clicks(
    component: DebugUiComponent,
    clicks: DebugUiClicks,
) -> DebugUiComponent {
    DebugUiComponent {
        show_profiler: component.show_profiler != clicks.toggle_profiling,
        terrain_wireframe: component.terrain_wireframe != clicks.toggle_wireframe,
    }
}

/// Applies the clicks of a frame: flips the switches whose buttons were
/// clicked, and asks for the scene to be saved if Save was clicked. A
/// request to save that is pending stays pending.
#[allow(non_snake_case)]
pub fn DebugUiSystem(component: &mut DebugUiComponent, should_save: &mut bool, clicks: DebugUiClicks)
    ensures
        *final(component) == after_clicks(*old(component), clicks),
        *final(should_save) == (*old(should_save) || clicks.save),
{
    if clicks.save {
        *should_save = true;
    }
    if clicks.toggle_profiling {
        component.show_profiler = !component.show_profiler;
    }
    if clicks.toggle_wireframe {
        component.terrain_wireframe = !component.terrain_wireframe;
    }
}

/// Clicking a toggle in two frames leaves its switch where it was.
pub proof fn lemma_toggle_twice(component: DebugUiComponent, clicks: DebugUiClicks)
    ensures
        after_clicks(after_clicks(component, clicks), clicks) == component,
{
}

} // verus!
