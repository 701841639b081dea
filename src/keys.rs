use vstd::prelude::*;

verus! {

/// The physical keys that the viewer binds to an action.
#[derive(Clone, Copy, Debug, PartialEq, Eq, Structural)]
pub enum Key {
    KeyW,
    KeyA,
    KeyS,
    KeyD,
    ArrowUp,
    ArrowDown,
    ArrowLeft,
    ArrowRight,
    Space,
    KeyC,
    ControlLeft,
    ShiftLeft,
    Tab,
    KeyR,
    KeyQ,
    KeyE,
    KeyZ,
    KeyX,
    Digit0,
    Digit1,
    Digit2,
    Digit3,
    Digit4,
    Digit5,
    Digit6,
    KeyF,
    Escape,
}

/// Number of bound keys.
pub const KEY_COUNT: usize = 27;

/// Slot of a key in a `KeySet`.
pub open spec fn key_index(k: Key) -> nat {
    match k {
        Key::KeyW => 0,
        Key::KeyA => 1,
        Key::KeyS => 2,
        Key::KeyD => 3,
        Key::ArrowUp => 4,
        Key::ArrowDown => 5,
        Key::ArrowLeft => 6,
        Key::ArrowRight => 7,
        Key::Space => 8,
        Key::KeyC => 9,
        Key::ControlLeft => 10,
        Key::ShiftLeft => 11,
        Key::Tab => 12,
        Key::KeyR => 13,
        Key::KeyQ => 14,
        Key::KeyE => 15,
        Key::KeyZ => 16,
        Key::KeyX => 17,
        Key::Digit0 => 18,
        Key::Digit1 => 19,
        Key::Digit2 => 20,
        Key::Digit3 => 21,
        Key::Digit4 => 22,
        Key::Digit5 => 23,
        Key::Digit6 => 24,
        Key::KeyF => 25,
        Key::Escape => 26,
    }
}

/// The key in a given slot; the inverse of `key_index`.
pub open spec fn key_at(i: nat) -> Key {
    if i == 0 { Key::KeyW }
    else if i == 1 { Key::KeyA }
    else if i == 2 { Key::KeyS }
    else if i == 3 { Key::KeyD }
    else if i == 4 { Key::ArrowUp }
    else if i == 5 { Key::ArrowDown }
    else if i == 6 { Key::ArrowLeft }
    else if i == 7 { Key::ArrowRight }
    else if i == 8 { Key::Space }
    else if i == 9 { Key::KeyC }
    else if i == 10 { Key::ControlLeft }
    else if i == 11 { Key::ShiftLeft }
    else if i == 12 { Key::Tab }
    else if i == 13 { Key::KeyR }
    else if i == 14 { Key::KeyQ }
    else if i == 15 { Key::KeyE }
    else if i == 16 { Key::KeyZ }
    else if i == 17 { Key::KeyX }
    else if i == 18 { Key::Digit0 }
    else if i == 19 { Key::Digit1 }
    else if i == 20 { Key::Digit2 }
    else if i == 21 { Key::Digit3 }
    else if i == 22 { Key::Digit4 }
    else if i == 23 { Key::Digit5 }
    else if i == 24 { Key::Digit6 }
    else if i == 25 { Key::KeyF }
    else { Key::Escape }
}

proof fn lemma_key_index(k: Key)
    ensures
        key_index(k) < KEY_COUNT,
        key_at(key_index(k)) == k,
{
}

impl Key {
    /// Slot of this key in a `KeySet`.
    pub fn index(self) -> (r: usize)
        ensures
            r == key_index(self),
            r < KEY_COUNT,
    {
        match self {
            Key::KeyW => 0,
            Key::KeyA => 1,
            Key::KeyS => 2,
            Key::KeyD => 3,
            Key::ArrowUp => 4,
            Key::ArrowDown => 5,
            Key::ArrowLeft => 6,
            Key::ArrowRight => 7,
            Key::Space => 8,
            Key::KeyC => 9,
            Key::ControlLeft => 10,
            Key::ShiftLeft => 11,
            Key::Tab => 12,
            Key::KeyR => 13,
            Key::KeyQ => 14,
            Key::KeyE => 15,
            Key::KeyZ => 16,
            Key::KeyX => 17,
            Key::Digit0 => 18,
            Key::Digit1 => 19,
            Key::Digit2 => 20,
            Key::Digit3 => 21,
            Key::Digit4 => 22,
            Key::Digit5 => 23,
            Key::Digit6 => 24,
            Key::KeyF => 25,
            Key::Escape => 26,
        }
    }
}

/// The set of keys currently held down.
pub struct KeySet {
    down: Vec<bool>,
}

impl View for KeySet {
    type V = Set<Key>;

    closed spec fn view(&self) -> Set<Key> {
        Set::new(|k: Key| self.down@[key_index(k) as int])
    }
}

impl KeySet {
    /// Every slot exists.
    pub closed spec fn wf(&self) -> bool {
        self.down@.len() == KEY_COUNT
    }

    /// No key held.
    pub fn new() -> (r: KeySet)
        ensures
            r.wf(),
            r@ == Set::<Key>::empty(),
    {
        let mut down: Vec<bool> = Vec::new();
        let mut i: usize = 0;
        while i < KEY_COUNT
            invariant
                i <= KEY_COUNT,
                down@.len() == i,
                forall|j: int| 0 <= j < i ==> !down@[j],
            decreases KEY_COUNT - i,
        {
            down.push(false);
            i = i + 1;
        }
        let r = KeySet { down };
        assert(r@ =~= Set::<Key>::empty()) by {
            assert forall|k: Key| !r@.contains(k) by {
                lemma_key_index(k);
            }
        }
        r
    }

    /// Marks `k` as held.
    pub fn insert(&mut self, k: Key)
        requires
            old(self).wf(),
        ensures
            final(self).wf(),
            final(self)@ == old(self)@.insert(k),
    {
        let i = k.index();
        self.down.set(i, true);
        assert(self@ =~= old(self)@.insert(k)) by {
            assert forall|j: Key| #[trigger] self@.contains(j) == old(self)@.insert(k).contains(j) by {
                lemma_key_index(j);
                lemma_key_index(k);
            }
        }
    }

    /// Marks `k` as released.
    pub fn remove(&mut self, k: Key)
        requires
            old(self).wf(),
        ensures
            final(self).wf(),
            final(self)@ == old(self)@.remove(k),
    {
        let i = k.index();
        self.down.set(i, false);
        assert(self@ =~= old(self)@.remove(k)) by {
            assert forall|j: Key| #[trigger] self@.contains(j) == old(self)@.remove(k).contains(j) by {
                lemma_key_index(j);
                lemma_key_index(k);
            }
        }
    }

    /// Whether `k` is held.
    pub fn contains(&self, k: Key) -> (r: bool)
        requires
            self.wf(),
        ensures
            r == self@.contains(k),
    {
        let i = k.index();
        self.down[i]
    }
}

} // verus!
