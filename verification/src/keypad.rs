//! The sixteen-key hexadecimal keypad.

use vstd::prelude::*;

verus! {

/// Pressed/released state of the keys `0x0` to `0xF`.
pub struct Keypad {
    pub keys: [bool; 16],
}

/// Key `k` is held down and no key with a smaller index is.
pub open spec fn is_lowest_pressed(keys: Seq<bool>, k: int) -> bool {
    &&& 0 <= k < keys.len()
    &&& keys[k]
    &&& forall|j: int| 0 <= j < k ==> !#[trigger] keys[j]
}

/// No key at all is held down.
pub open spec fn none_pressed(keys: Seq<bool>) -> bool {
    forall|k: int| 0 <= k < keys.len() ==> !#[trigger] keys[k]
}

/// The key the blocking key wait reports: the lowest pressed index, if any.
pub open spec fn lowest_pressed(keys: Seq<bool>) -> Option<u8> {
    if exists|k: int| is_lowest_pressed(keys, k) {
        Some((choose|k: int| is_lowest_pressed(keys, k)) as u8)
    } else {
        None
    }
}

/// At most one index is the lowest pressed one, so finding it pins
/// `lowest_pressed`.
pub proof fn lemma_lowest_pressed_is(keys: Seq<bool>, k: int)
    requires
        is_lowest_pressed(keys, k),
    ensures
        lowest_pressed(keys) == Some(k as u8),
{
    let c = choose|c: int| is_lowest_pressed(keys, c);
    assert(is_lowest_pressed(keys, c));
    if c < k {
        assert(!keys[c]);
    } else if k < c {
        assert(!keys[k]);
    }
}

/// With every key released there is nothing to report.
pub proof fn lemma_lowest_pressed_none(keys: Seq<bool>)
    requires
        none_pressed(keys),
    ensures
        lowest_pressed(keys) is None,
{
    if exists|k: int| is_lowest_pressed(keys, k) {
        let c = choose|c: int| is_lowest_pressed(keys, c);
        assert(keys[c]);
    }
}

impl Keypad {
    /// A keypad with every key released.
    pub fn new() -> (pad: Self)
        ensures
            pad.keys@ == Seq::new(16, |k: int| false),
    {
        Self { keys: [false; 16] }
    }

    /// Whether key `index` is currently held down.
    pub fn is_pressed(&self, index: usize) -> (down: bool)
        requires
            index < 16,
        ensures
            down == self.keys@[index as int],
    {
        self.keys[index]
    }

    /// Records key `index` as released.
    pub fn set_up(&mut self, index: usize)
        requires
            index < 16,
        ensures
            final(self).keys@ == old(self).keys@.update(index as int, false),
    {
        self.keys[index] = false;
    }

    /// Records key `index` as held down.
    pub fn set_down(&mut self, index: usize)
        requires
            index < 16,
        ensures
            final(self).keys@ == old(self).keys@.update(index as int, true),
    {
        self.keys[index] = true;
    }

    /// Scans the keys in ascending order and reports the first one held
    /// down.
    pub fn get_key_pressed(&self) -> (key: Option<u8>)
        ensures
            key == lowest_pressed(self.keys@),
            match key {
                Some(k) => is_lowest_pressed(self.keys@, k as int),
                None => none_pressed(self.keys@),
            },
    {
        let mut k: u8 = 0;
        while k < 16
            invariant
                k <= 16,
                forall|j: int| 0 <= j < k ==> !#[trigger] self.keys@[j],
            decreases 16 - k,
        {
            if self.keys[k as usize] {
                proof {
                    lemma_lowest_pressed_is(self.keys@, k as int);
                }
                return Some(k);
            }
            k = k + 1;
        }
        proof {
            lemma_lowest_pressed_none(self.keys@);
        }
        None
    }
}

} // verus!
