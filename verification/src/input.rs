//! Keys and modifiers, as the window reports them.

use vstd::prelude::*;

verus! {

/// Which modifier keys are held down.
#[derive(Clone, Copy, Debug, PartialEq, Eq, Hash, Structural)]
pub struct Modifiers {
    pub shift: bool,
    pub ctrl: bool,
    pub alt: bool,
    pub logo: bool,
}

/// A key of the keyboard. The keys that the engine reacts to have a name;
/// every other key is told apart by the code that the window gives it.
#[derive(Clone, Copy, Debug, PartialEq, Eq, Hash, Structural)]
pub enum Key {
    W,
    A,
    S,
    D,
    Z,
    Other(u32),
}

/// The keys pressed during the current frame, in the order of the presses.
#[derive(Debug, PartialEq, Eq)]
pub struct KeyInputQueue {
    pub keys: Vec<Key>,
}

impl View for KeyInputQueue {
    type V = Seq<Key>;

    open spec fn view(&self) -> Seq<Key> {
        self.keys@
    }
}

impl KeyInputQueue {
    pub fn new() -> (queue: Self)
        ensures
            queue@ == Seq::<Key>::empty(),
    {
        KeyInputQueue { keys: Vec::new() }
    }

    /// Adds a press at the end.
    pub fn push(&mut self, key: Key)
        ensures
            final(self)@ == old(self)@.push(key),
    {
        self.keys.push(key);
    }

    /// Whether the key has been pressed during the frame.
    pub fn contains(&self, key: Key) -> (found: bool)
        ensures
            found == self@.contains(key),
    {
        let mut i: usize = 0;
        while i < self.keys.len()
            invariant
                i <= self.keys@.len(),
                forall|j: int| 0 <= j < i ==> self.keys@[j] != key,
            decreases self.keys@.len() - i,
        {
            if self.keys[i] == key {
                return true;
            }
            i += 1;
        }
        false
    }
}

/// A part of the engine with a lifecycle.
pub trait Manager {
    fn startup(&mut self);

    fn shutdown(&mut self);

    /// Called once for every frame.
    fn update(&mut self);
}

/// Remembers the modifiers that are held and the key pressed last.
#[derive(Debug, PartialEq, Eq)]
pub struct InputManager {
    modifier_state: Option<Modifiers>,
    current_key_pressed: Option<Key>,
}

impl InputManager {
    /// The modifiers reported last, if any were.
    pub closed spec fn modifiers(&self) -> Option<Modifiers> {
        self.modifier_state
    }

    /// The key pressed in the current frame, if one was.
    pub closed spec fn key(&self) -> Option<Key> {
        self.current_key_pressed
    }

    /// An input manager that has seen nothing.
    pub fn create_new() -> (manager: Self)
        ensures
            manager.modifiers() is None,
            manager.key() is None,
    {
        InputManager { modifier_state: None, current_key_pressed: None }
    }

    /// Takes in a change of the modifiers.
    pub fn handle_modifier_change(&mut self, new_state: Option<Modifiers>)
        ensures
            final(self).modifiers() == new_state,
            final(self).key() == old(self).key(),
    {
        self.modifier_state = new_state;
    }

    /// Takes in a key press.
    pub fn handle_key_input(&mut self, key_pressed: Option<Key>)
        requires
            key_pressed is Some,
        ensures
            final(self).key() == key_pressed,
            final(self).modifiers() == old(self).modifiers(),
    {
        self.current_key_pressed = key_pressed;
    }

    pub fn modifier_state(&self) -> (state: Option<Modifiers>)
        ensures
            state == self.modifiers(),
    {
        self.modifier_state
    }

    pub fn current_key_pressed(&self) -> (key: Option<Key>)
        ensures
            key == self.key(),
    {
        self.current_key_pressed
    }
}

impl Manager for InputManager {
    fn startup(&mut self)
        ensures
            *final(self) == *old(self),
    {
    }

    fn shutdown(&mut self)
        ensures
            *final(self) == *old(self),
    {
    }

    /// Forgets the key of the frame that is over; the modifiers stay.
    fn update(&mut self)
        ensures
            final(self).key() is None,
            final(self).modifiers() == old(self).modifiers(),
    {
        self.current_key_pressed = None;
    }
}

} // verus!
