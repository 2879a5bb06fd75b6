use vstd::prelude::*;

verus! {

/// Number of keys on the hexadecimal keypad.
pub const KEY_COUNT: usize = 16;

/// The lowest-numbered pressed key at or above `from`, if any.
pub open spec fn lowest_pressed(keys: Seq<bool>, from: int) -> Option<u8>
    decreases KEY_COUNT - from,
{
    if from < 0 || from >= KEY_COUNT {
        None
    } else if keys[from] {
        Some(from as u8)
    } else {
        lowest_pressed(keys, from + 1)
    }
}

/// What `lowest_pressed` picks: no key when none from `from` on is pressed, else
/// the first pressed one.
pub proof fn lemma_lowest_pressed(keys: Seq<bool>, from: int)
    requires
        0 <= from <= KEY_COUNT,
        keys.len() == KEY_COUNT,
    ensures
        match lowest_pressed(keys, from) {
            None => forall|j: int| from <= j < KEY_COUNT ==> !#[trigger] keys[j],
            Some(k) => from <= k < KEY_COUNT && keys[k as int] && forall|j: int|
                from <= j < k ==> !#[trigger] keys[j],
        },
    decreases KEY_COUNT - from,
{
    if from < KEY_COUNT {
        lemma_lowest_pressed(keys, from + 1);
    }
}

/// The state of the sixteen keys, each pressed or released.
pub struct Keyboard {
    keys: Vec<bool>,
}

impl View for Keyboard {
    type V = Seq<bool>;

    closed spec fn view(&self) -> Seq<bool> {
        self.keys@
    }
}

impl Keyboard {
    pub open spec fn wf(&self) -> bool {
        self@.len() == KEY_COUNT
    }

    /// All keys released.
    pub fn new() -> (k: Keyboard)
        ensures
            k.wf(),
            k@ == Seq::new(KEY_COUNT as nat, |i: int| false),
    {
        let k = Keyboard { keys: vec![false; KEY_COUNT] };
        assert(k@ =~= Seq::new(KEY_COUNT as nat, |i: int| false));
        k
    }

    /// Whether key `key_code` is held down. Codes outside the keypad are never pressed.
    pub fn key_pressed(&self, key_code: u8) -> (pressed: bool)
        requires
            self.wf(),
        ensures
            pressed == (key_code < KEY_COUNT && self@[key_code as int]),
    {
        if (key_code as usize) < KEY_COUNT {
            self.keys[key_code as usize]
        } else {
            false
        }
    }

    /// Records that key `key_code` was pressed or released.
    pub fn set_key_state(&mut self, key_code: u8, pressed: bool)
        requires
            old(self).wf(),
            key_code < KEY_COUNT,
        ensures
            final(self).wf(),
            final(self)@ == old(self)@.update(key_code as int, pressed),
    {
        self.keys.set(key_code as usize, pressed);
    }

    /// The lowest-numbered key that is held down, if any.
    pub fn first_pressed(&self) -> (k: Option<u8>)
        requires
            self.wf(),
        ensures
            k == lowest_pressed(self@, 0),
    {
        let mut i: usize = 0;
        while i < KEY_COUNT
            invariant
                i <= KEY_COUNT,
                self.wf(),
                lowest_pressed(self@, 0) == lowest_pressed(self@, i as int),
            decreases KEY_COUNT - i,
        {
            if self.keys[i] {
                return Some(i as u8);
            }
            i = i + 1;
        }
        None
    }
}

} // verus!
