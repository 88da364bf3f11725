//! The application: the systems of the engine, in the order in which they
//! were registered.

use vstd::prelude::*;

verus! {

/// A system of the engine.
pub trait System {
    /// The name that the system goes by.
    spec fn name(&self) -> Seq<char>;

    fn startup(&mut self)
        ensures
            final(self).name() == old(self).name(),
    ;

    fn shutdown(&mut self)
        ensures
            final(self).name() == old(self).name(),
    ;

    /// The name of the system, for display.
    fn display_system_name(&self) -> (name: String)
        ensures
            name@ == self.name(),
    ;

    /// Called once for every turn of the main loop.
    fn update(&self);
}

/// The window on the desktop.
#[derive(Clone, Copy, Debug, PartialEq, Eq, Structural)]
pub struct Win64Window {}

impl Win64Window {
    pub fn create_new() -> (window: Self)
        ensures
            window == (Win64Window {  }),
    {
        Win64Window {  }
    }
}

/// The system that renders into the window.
#[derive(Clone, Copy, Debug, PartialEq, Eq, Structural)]
pub struct RenderSystem {
    pub window: Win64Window,
}

impl RenderSystem {
    pub fn create_new() -> (system: Self)
        ensures
            system == (RenderSystem { window: Win64Window {  } }),
    {
        let render_sys = RenderSystem { window: Win64Window::create_new() };
        render_sys
    }
}

impl System for RenderSystem {
    open spec fn name(&self) -> Seq<char> {
        "Render System"@
    }

    fn startup(&mut self)
        ensures
            *final(self) == *old(self),
    {
    }

    fn shutdown(&mut self)
        ensures
            *final(self) == *old(self),
    {
    }

    fn display_system_name(&self) -> (name: String) {
        "Render System".to_string()
    }

    fn update(&self) {
    }
}

/// The system that moves things.
#[derive(Clone, Copy, Debug, PartialEq, Eq, Structural)]
pub struct PhysicsSystem {}

impl System for PhysicsSystem {
    open spec fn name(&self) -> Seq<char> {
        "Physics System"@
    }

    fn startup(&mut self)
        ensures
            *final(self) == *old(self),
    {
    }

    fn shutdown(&mut self)
        ensures
            *final(self) == *old(self),
    {
    }

    fn display_system_name(&self) -> (name: String) {
        "Physics System".to_string()
    }

    fn update(&self) {
    }
}

/// Any one of the systems that an application can hold.
#[derive(Clone, Copy, Debug, PartialEq, Eq, Structural)]
pub enum EngineSystem {
    Physics(PhysicsSystem),
    Render(RenderSystem),
}

impl System for EngineSystem {
    open spec fn name(&self) -> Seq<char> {
        match self {
            EngineSystem::Physics(system) => system.name(),
            EngineSystem::Render(system) => system.name(),
        }
    }

    fn startup(&mut self)
        ensures
            *final(self) == *old(self),
    {
        match self {
            EngineSystem::Physics(system) => system.startup(),
            EngineSystem::Render(system) => system.startup(),
        }
    }

    fn shutdown(&mut self)
        ensures
            *final(self) == *old(self),
    {
        match self {
            EngineSystem::Physics(system) => system.shutdown(),
            EngineSystem::Render(system) => system.shutdown(),
        }
    }

    fn display_system_name(&self) -> (name: String) {
        match self {
            EngineSystem::Physics(system) => system.display_system_name(),
            EngineSystem::Render(system) => system.display_system_name(),
        }
    }

    fn update(&self) {
        match self {
            EngineSystem::Physics(system) => system.update(),
            EngineSystem::Render(system) => system.update(),
        }
    }
}

/// The application.
#[derive(Debug, PartialEq, Eq)]
pub struct Application {
    pub systems: Vec<EngineSystem>,
}

impl View for Application {
    type V = Seq<EngineSystem>;

    open spec fn view(&self) -> Seq<EngineSystem> {
        self.systems@
    }
}

impl Application {
    /// An application without systems.
    pub fn create_application() -> (application: Self)
        ensures
            application@ == Seq::<EngineSystem>::empty(),
    {
        Self { systems: Vec::new() }
    }

    /// An application without systems.
    pub fn get_instance() -> (application: Self)
        ensures
            application@ == Seq::<EngineSystem>::empty(),
    {
        Self { systems: Vec::new() }
    }

    /// Adds a system behind those that are registered, and hands the
    /// application back for the next registration.
    pub fn register_system(&mut self, system: EngineSystem) -> (application: &mut Self)
        ensures
            application@ == old(self)@.push(system),
            *final(self) == *final(application),
    {
        self.systems.push(system);
        self
    }

    /// The names of the systems, in the order of their registration.
    pub fn print_systems(&self) -> (names: Vec<String>)
        ensures
            names@.len() == self@.len(),
            forall|i: int| 0 <= i < self@.len() ==> (#[trigger] names@[i])@ == self@[i].name(),
    {
        let mut names: Vec<String> = Vec::new();
        let mut i: usize = 0;
        while i < self.systems.len()
            invariant
                i <= self@.len(),
                names@.len() == i,
                forall|j: int| 0 <= j < i ==> (#[trigger] names@[j])@ == self@[j].name(),
            decreases self@.len() - i,
        {
            names.push(self.systems[i].display_system_name());
            i += 1;
        }
        names
    }
}

impl System for Application {
    open spec fn name(&self) -> Seq<char> {
        "application "@
    }

    /// Creates the physics system and the render system, starts them in
    /// that order, and registers them behind the systems that are there.
    fn startup(&mut self)
        ensures
            final(self)@ == old(self)@.push(EngineSystem::Physics(PhysicsSystem {  })).push(
                EngineSystem::Render(RenderSystem { window: Win64Window {  } }),
            ),
    {
        let mut physics_system = PhysicsSystem {  };
        let mut render_system = RenderSystem::create_new();
        physics_system.startup();
        render_system.startup();
        self.systems.push(EngineSystem::Physics(physics_system));
        self.systems.push(EngineSystem::Render(render_system));
    }

    /// Shuts every system down, in the order of registration, and lets go
    /// of them all.
    fn shutdown(&mut self)
        ensures
            final(self)@ == Seq::<EngineSystem>::empty(),
    {
        let mut i: usize = 0;
        while i < self.systems.len()
            invariant
                i <= self.systems@.len(),
            decreases self.systems@.len() - i,
        {
            self.systems[i].shutdown();
            i += 1;
        }
        self.systems.clear();
    }

    fn display_system_name(&self) -> (name: String) {
        "application ".to_string()
    }

    /// Updates every system, in the order of registration.
    fn update(&self) {
        let mut i: usize = 0;
        while i < self.systems.len()
            invariant
                i <= self.systems@.len(),
            decreases self.systems@.len() - i,
        {
            self.systems[i].update();
            i += 1;
        }
    }
}

} // verus!
