use vstd::prelude::*;

verus! {

/// The number of keys on the pad, 0x0 to 0xF.
pub const NUM_KEYS: usize = 16;

/// The latched state of one key.
#[derive(Debug, Clone, Copy, PartialEq, Eq, Structural)]
pub enum KeyStatus {
    Pressed,
    Released,
}

/// A key event from the input side: key index and its new state.
pub struct KeyUpdate {
    pub key: usize,
    pub status: KeyStatus,
}

/// The latched state of the sixteen keys.
pub struct Keys {
    pub keys_status: [KeyStatus; NUM_KEYS],
}

impl Keys {
    /// Every key released.
    pub fn new() -> (r: Keys)
        ensures
            forall|k: int| 0 <= k < NUM_KEYS ==> #[trigger] r.keys_status@[k] == KeyStatus::Released,
    {
        Keys { keys_status: [KeyStatus::Released; NUM_KEYS] }
    }

    /// Latches `status` for `key`; a key index past the pad is ignored.
    pub fn input(&mut self, key: usize, status: KeyStatus)
        ensures
            final(self).keys_status@ == if key < NUM_KEYS {
                old(self).keys_status@.update(key as int, status)
            } else {
                old(self).keys_status@
            },
    {
        if key >= NUM_KEYS {
            return;
        }
        self.keys_status[key] = status;
    }

    /// The latched state of `key`, or `None` for an index past the pad.
    pub fn get_status(&self, key: usize) -> (r: Option<KeyStatus>)
        ensures
            r == if key < NUM_KEYS {
                Some(self.keys_status@[key as int])
            } else {
                None::<KeyStatus>
            },
    {
        if key >= NUM_KEYS {
            None
        } else {
            Some(self.keys_status[key])
        }
    }
}

} // verus!
