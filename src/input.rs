//! The per-frame keyboard snapshot: keys held, and keys pressed or released this frame.
use std::collections::HashSet;
use vstd::prelude::*;

verus! {

broadcast use vstd::std_specs::hash::group_hash_axioms;

/// Manages the current input state of the window. Keys are identified by number.
pub struct InputState {
    /// The keys currently being held down.
    keys_held: HashSet<u32>,
    /// The keys pressed down this frame.
    keys_pressed: HashSet<u32>,
    /// The keys released this frame.
    keys_released: HashSet<u32>,
}

impl InputState {
    /// The keys currently held down.
    pub closed spec fn held(&self) -> Set<u32> {
        self.keys_held@
    }

    /// The keys pressed down this frame.
    pub closed spec fn pressed(&self) -> Set<u32> {
        self.keys_pressed@
    }

    /// The keys released this frame.
    pub closed spec fn released(&self) -> Set<u32> {
        self.keys_released@
    }

    /// Creates a new [`InputState`] with no key down.
    pub fn new() -> (r: InputState)
        ensures
            r.held() == Set::<u32>::empty(),
            r.pressed() == Set::<u32>::empty(),
            r.released() == Set::<u32>::empty(),
    {
        InputState {
            keys_held: HashSet::new(),
            keys_pressed: HashSet::new(),
            keys_released: HashSet::new(),
        }
    }

    /// Forgets the keys pressed and released, to begin a new frame.
    pub fn flush(&mut self)
        ensures
            final(self).held() == old(self).held(),
            final(self).pressed() == Set::<u32>::empty(),
            final(self).released() == Set::<u32>::empty(),
    {
        self.keys_pressed.clear();
        self.keys_released.clear();
    }

    /// Handles a key going down (`down`) or up. A press that the platform repeats
    /// while the key stays down changes nothing.
    pub fn keyboard_event(&mut self, key: u32, down: bool, repeat: bool)
        ensures
            down && !repeat ==> {
                &&& final(self).held() == old(self).held().insert(key)
                &&& final(self).pressed() == old(self).pressed().insert(key)
                &&& final(self).released() == old(self).released()
            },
            !down ==> {
                &&& final(self).held() == old(self).held().remove(key)
                &&& final(self).pressed() == old(self).pressed()
                &&& final(self).released() == old(self).released().insert(key)
            },
            down && repeat ==> {
                &&& final(self).held() == old(self).held()
                &&& final(self).pressed() == old(self).pressed()
                &&& final(self).released() == old(self).released()
            },
    {
        if down {
            if !repeat {
                self.keys_held.insert(key);
                self.keys_pressed.insert(key);
            }
        } else {
            self.keys_released.insert(key);
            self.keys_held.remove(&key);
        }
    }

    /// Returns if the given key was pressed this frame.
    pub fn key_pressed(&self, key: u32) -> (r: bool)
        ensures
            r == self.pressed().contains(key),
    {
        self.keys_pressed.contains(&key)
    }

    /// Returns if the given key was released this frame.
    pub fn key_released(&self, key: u32) -> (r: bool)
        ensures
            r == self.released().contains(key),
    {
        self.keys_released.contains(&key)
    }

    /// Returns if the given key is currently being held down.
    pub fn key_held(&self, key: u32) -> (r: bool)
        ensures
            r == self.held().contains(key),
    {
        self.keys_held.contains(&key)
    }
}

impl Default for InputState {
    fn default() -> (r: InputState)
        ensures
            r.held() == Set::<u32>::empty(),
            r.pressed() == Set::<u32>::empty(),
            r.released() == Set::<u32>::empty(),
    {
        InputState::new()
    }
}

} // verus!
