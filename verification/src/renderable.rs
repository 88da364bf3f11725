//! The component that marks an entity as one to be rendered.

use vstd::prelude::*;

verus! {

/// Marks an entity as one to be rendered, and says whether it has been
/// prepared for that.
#[derive(Clone, Copy, Debug, PartialEq, Eq, Structural)]
pub struct RenderableComponent {
    pub initialized: bool,
}

impl RenderableComponent {
    /// A component that has not been prepared.
    pub fn create() -> (component: Self)
        ensures
            component == (RenderableComponent { initialized: false }),
    {
        RenderableComponent { initialized: false }
    }

    /// Marks the component as prepared.
    pub fn initialize(&mut self)
        ensures
            *final(self) == (RenderableComponent { initialized: true }),
    {
        self.initialized = true;
    }

    pub fn initialized(&self) -> (initialized: bool)
        ensures
            initialized == self.initialized,
    {
        self.initialized
    }
}

/// Prepares every renderable that has not been prepared.
#[derive(Clone, Copy, Debug, PartialEq, Eq)]
pub struct RenderableInitializerSystem;

impl RenderableInitializerSystem {
    /// Leaves every component prepared, and their number as it was.
    pub fn run(&mut self, renderables: &mut Vec<RenderableComponent>)
        ensures
            final(renderables)@ == Seq::new(
                old(renderables)@.len(),
                |i: int| RenderableComponent { initialized: true },
            ),
    {
        let mut i: usize = 0;
        while i < renderables.len()
            invariant
                i <= renderables@.len(),
                renderables@.len() == old(renderables)@.len(),
                forall|j: int| 0 <= j < i ==> (#[trigger] renderables@[j]).initialized,
            decreases renderables@.len() - i,
        {
            if renderables[i].initialized() == false {
                renderables[i].initialize();
            }
            i += 1;
        }
        assert(renderables@ =~= Seq::new(
            old(renderables)@.len(),
            |i: int| RenderableComponent { initialized: true },
        ));
    }
}

/// Records command buffers for primitives. It has nothing to do yet.
#[derive(Clone, Copy, Debug, PartialEq, Eq)]
pub struct PrimitiveCommandBufferBuilderSystem;

} // verus!
