//! The sixteen keys, and the register that waits for one of them.

use vstd::prelude::*;

verus! {

/// Number of keys.
pub const NUM_KEYS: usize = 16;

/// Whether the key with the number `key` is held; there is no key with a
/// number of sixteen or more, and so none such is held.
pub open spec fn held(keys: Seq<bool>, key: int) -> bool {
    0 <= key < NUM_KEYS && keys[key]
}

/// The lowest key from `from` on that is held.
pub open spec fn first_held_from(keys: Seq<bool>, from: int) -> Option<u8>
    decreases NUM_KEYS - from,
{
    if from < 0 || from >= NUM_KEYS {
        None
    } else if keys[from] {
        Some(from as u8)
    } else {
        first_held_from(keys, from + 1)
    }
}

/// The lowest key that is held.
pub open spec fn first_held(keys: Seq<bool>) -> Option<u8> {
    first_held_from(keys, 0)
}

/// What `first_held_from` finds is a held key with none held between `from`
/// and it; it finds none only where none is held from `from` on.
pub proof fn lemma_first_held_from(keys: Seq<bool>, from: int)
    requires
        0 <= from <= NUM_KEYS,
    ensures
        match first_held_from(keys, from) {
            Some(key) => from <= key < NUM_KEYS && keys[key as int] && forall|j: int|
                from <= j < key ==> !keys[j],
            None => forall|j: int| from <= j < NUM_KEYS ==> !keys[j],
        },
    decreases NUM_KEYS - from,
{
    if from < NUM_KEYS && !keys[from] {
        lemma_first_held_from(keys, from + 1);
    }
}

/// The key that is latched is the lowest one that is held, and none is
/// latched only where none is held.
pub proof fn lemma_first_held(keys: Seq<bool>)
    ensures
        match first_held(keys) {
            Some(key) => held(keys, key as int) && forall|j: int| 0 <= j < key ==> !held(keys, j),
            None => forall|j: int| !held(keys, j),
        },
{
    lemma_first_held_from(keys, 0);
}

/// Which keys are held, and the register, if any, that waits for a key.
pub struct InputLatch {
    pub keys: [bool; NUM_KEYS],
    pub blocked: Option<u8>,
}

impl InputLatch {
    /// A register that waits is one of the sixteen.
    pub open spec fn wf(&self) -> bool {
        self.blocked matches Some(register) ==> register < 16
    }

    /// No key held, no register waiting.
    pub fn new() -> (latch: InputLatch)
        ensures
            latch.wf(),
            latch.blocked == None::<u8>,
            latch.keys@ == Seq::new(NUM_KEYS as nat, |i: int| false),
    {
        let latch = InputLatch { keys: [false; 16], blocked: None };
        assert(latch.keys@ =~= Seq::new(NUM_KEYS as nat, |i: int| false));
        latch
    }

    /// Takes over which keys are held now.
    pub fn set_keys(&mut self, keys: [bool; NUM_KEYS])
        ensures
            final(self).keys == keys,
            final(self).blocked == old(self).blocked,
    {
        self.keys = keys;
    }

    /// Whether the key with the number `key` is held.
    pub fn is_held(&self, key: u8) -> (b: bool)
        ensures
            b == held(self.keys@, key as int),
    {
        (key as usize) < NUM_KEYS && self.keys[key as usize]
    }

    /// The lowest key that is held.
    pub fn first_held(&self) -> (r: Option<u8>)
        ensures
            r == first_held(self.keys@),
    {
        let mut i: u8 = 0;
        while i < 16
            invariant
                i <= 16,
                first_held(self.keys@) == first_held_from(self.keys@, i as int),
            decreases 16 - i,
        {
            if self.keys[i as usize] {
                return Some(i);
            }
            i = i + 1;
        }
        None
    }

    /// Lets register `register` wait for a key.
    pub fn block(&mut self, register: u8)
        requires
            register < 16,
        ensures
            final(self).wf(),
            final(self).keys == old(self).keys,
            final(self).blocked == Some(register),
    {
        self.blocked = Some(register);
    }

    /// Ends the wait, if there is one.
    pub fn release(&mut self)
        ensures
            final(self).wf(),
            final(self).keys == old(self).keys,
            final(self).blocked == None::<u8>,
    {
        self.blocked = None;
    }
}

} // verus!
