//! The sixteen-key hexadecimal keypad and its wait-for-key mode.
//!
//! The keypad mirrors the physical keys: the host reports each key's state
//! with `set_key`, and the machine only asks which keys are down.

use vstd::prelude::*;

verus! {

/// The number of keys.
pub const KEYS: u8 = 16;

/// The mathematical content of a `KeyPad`.
#[verifier::ext_equal]
pub struct KeyPadView {
    /// Whether the machine is suspended until a key is pressed.
    pub waiting: bool,
    /// The register that receives the key that ends the wait.
    pub dest_register: usize,
    /// For each of the sixteen keys, whether it is held down.
    pub keys: Seq<bool>,
}

impl KeyPadView {
    /// A keypad with no key down that nobody waits for.
    pub open spec fn idle() -> KeyPadView {
        KeyPadView { waiting: false, dest_register: 0, keys: Seq::new(16, |k: int| false) }
    }

    /// There are sixteen keys, and the destination is one of the sixteen
    /// registers.
    pub open spec fn wf(self) -> bool {
        self.keys.len() == 16 && self.dest_register < 16
    }

    /// The keypad after a wait for a key, to be stored in register `dest`,
    /// began.
    pub open spec fn wait_for_key(self, dest: usize) -> KeyPadView {
        KeyPadView { waiting: true, dest_register: dest, ..self }
    }

    /// The keypad after the host reported the state of one key.
    pub open spec fn set_key(self, key: int, down: bool) -> KeyPadView {
        KeyPadView { keys: self.keys.update(key, down), ..self }
    }

    /// What a poll for a pressed key finds.
    pub open spec fn pressed(self) -> Option<(u8, usize)> {
        match first_key_down(self.keys, 0) {
            Some(key) => Some((key, self.dest_register)),
            None => None,
        }
    }

    /// The keypad after a poll for a pressed key: a key that is down ends the
    /// wait.
    pub open spec fn polled(self) -> KeyPadView {
        if first_key_down(self.keys, 0) is Some {
            KeyPadView { waiting: false, ..self }
        } else {
            self
        }
    }
}

/// The lowest key from `from` upwards that is held down, if there is one.
pub open spec fn first_key_down(keys: Seq<bool>, from: int) -> Option<u8>
    decreases 16 - from,
{
    if from < 0 || from >= 16 {
        None
    } else if keys[from] {
        Some(from as u8)
    } else {
        first_key_down(keys, from + 1)
    }
}

/// A poll finds the lowest key that is down, and finds none only if no key
/// from `from` upwards is down.
pub proof fn lemma_first_key_down(keys: Seq<bool>, from: int)
    requires
        0 <= from <= 16,
    ensures
        match first_key_down(keys, from) {
            Some(key) => from <= key < 16 && keys[key as int] && forall|j: int|
                from <= j < key ==> !keys[j],
            None => forall|j: int| from <= j < 16 ==> !keys[j],
        },
    decreases 16 - from,
{
    if from < 16 && !keys[from] {
        lemma_first_key_down(keys, from + 1);
    }
}

/// The keypad: which keys are down, and whether the machine waits for one.
pub struct KeyPad {
    waiting: bool,
    dest_register: usize,
    keys: [bool; 16],
}

impl View for KeyPad {
    type V = KeyPadView;

    closed spec fn view(&self) -> KeyPadView {
        KeyPadView { waiting: self.waiting, dest_register: self.dest_register, keys: self.keys@ }
    }
}

impl KeyPad {
    /// The invariant of every keypad: the destination is a register.
    #[verifier::type_invariant]
    pub closed spec fn inv(&self) -> bool {
        self.dest_register < 16
    }

    /// The content of a keypad is well formed.
    pub proof fn lemma_inv(&self)
        requires
            self.inv(),
        ensures
            self@.wf(),
    {
    }

    /// A keypad with no key down that nobody waits for.
    pub fn new() -> (k: Self)
        ensures
            k@ == KeyPadView::idle(),
    {
        Self { waiting: false, dest_register: 0, keys: [false; 16] }
    }

    /// Whether the machine is suspended until a key is pressed.
    pub fn waiting(&self) -> (w: bool)
        ensures
            w == self@.waiting,
            self@.wf(),
    {
        proof {
            use_type_invariant(self);
        }
        self.waiting
    }

    /// The register that receives the key that ends the wait.
    pub fn dest_register(&self) -> (dest: usize)
        ensures
            dest == self@.dest_register,
            self@.wf(),
    {
        proof {
            use_type_invariant(self);
        }
        self.dest_register
    }

    /// Records that the host saw `key` down, or up.
    pub fn set_key(&mut self, key: u8, down: bool)
        requires
            key < KEYS,
        ensures
            final(self)@ == old(self)@.set_key(key as int, down),
            final(self)@.wf(),
    {
        proof {
            use_type_invariant(&*self);
        }
        self.keys[key as usize] = down;
    }

    /// Polls the keys: the lowest key that is down, if any, ends the wait and
    /// is returned with the register it is meant for.
    pub fn get_key(&mut self) -> (r: Option<(u8, usize)>)
        ensures
            r == old(self)@.pressed(),
            final(self)@ == old(self)@.polled(),
            final(self)@.wf(),
            r matches Some((key, dest)) ==> key < 16 && dest < 16,
    {
        proof {
            use_type_invariant(&*self);
            lemma_first_key_down(self.keys@, 0);
        }
        let mut key: u8 = 0;
        while key < KEYS
            invariant
                key <= KEYS,
                first_key_down(self.keys@, 0) == first_key_down(self.keys@, key as int),
                self.dest_register < 16,
                self@ == old(self)@,
            decreases KEYS - key,
        {
            if self.keys[key as usize] {
                self.waiting = false;
                return Some((key, self.dest_register));
            }
            key += 1;
        }
        None
    }

    /// Suspends the machine until a key is pressed; the key will go to
    /// register `dest`.
    pub fn wait_for_key(&mut self, dest: usize)
        requires
            dest < 16,
        ensures
            final(self)@ == old(self)@.wait_for_key(dest),
            final(self)@.wf(),
    {
        self.dest_register = dest;
        self.waiting = true;
    }

    /// Whether key `x` is held down.
    pub fn is_key_down(&self, x: u8) -> (down: bool)
        requires
            x < KEYS,
        ensures
            down == self@.keys[x as int],
            self@.wf(),
    {
        proof {
            use_type_invariant(self);
        }
        self.keys[x as usize]
    }
}

} // verus!
