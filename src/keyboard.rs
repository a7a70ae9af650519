use vstd::prelude::*;

verus! {

/// Keys on the keypad, `0x0` to `0xF`.
pub const KEY_COUNT: usize = 16;

/// The lowest pressed key at `i` or above, if any.
pub open spec fn first_from(pressed: Seq<bool>, i: int) -> Option<u8>
    decreases KEY_COUNT - i,
{
    if i < 0 || i >= KEY_COUNT {
        None
    } else if pressed[i] {
        Some(i as u8)
    } else {
        first_from(pressed, i + 1)
    }
}

/// The lowest pressed key, if any.
pub open spec fn first_pressed(pressed: Seq<bool>) -> Option<u8> {
    first_from(pressed, 0)
}

/// Whether `key` is a key of the keypad and is held down.
pub open spec fn key_down(pressed: Seq<bool>, key: int) -> bool {
    0 <= key < KEY_COUNT && pressed[key]
}

/// The pressed state of the sixteen keys, replaced as a whole once per tick.
pub struct Keyboard {
    pressed: Vec<bool>,
}

impl View for Keyboard {
    type V = Seq<bool>;

    closed spec fn view(&self) -> Seq<bool> {
        self.pressed@
    }
}

impl Keyboard {
    /// There is one flag per key.
    pub open spec fn wf(&self) -> bool {
        self@.len() == KEY_COUNT
    }

    /// A keypad with no key held.
    pub fn new() -> (k: Keyboard)
        ensures
            k.wf(),
            forall|i: int| 0 <= i < KEY_COUNT ==> !k@[i],
    {
        let mut pressed: Vec<bool> = Vec::new();
        let mut i: usize = 0;
        while i < KEY_COUNT
            invariant
                i <= KEY_COUNT,
                pressed@.len() == i,
                forall|j: int| 0 <= j < i ==> !pressed@[j],
            decreases KEY_COUNT - i,
        {
            pressed.push(false);
            i += 1;
        }
        Keyboard { pressed }
    }

    /// Replaces the pressed set: exactly the keys listed are held afterwards.
    /// Values outside the keypad are ignored.
    pub fn set_pressed(&mut self, pressed_keys: &[u8])
        requires
            old(self).wf(),
        ensures
            final(self).wf(),
            forall|k: int|
                0 <= k < KEY_COUNT ==> (#[trigger] final(self)@[k] <==> exists|i: int|
                    0 <= i < pressed_keys@.len() && pressed_keys@[i] == k),
    {
        let mut k: usize = 0;
        while k < KEY_COUNT
            invariant
                k <= KEY_COUNT,
                self@.len() == KEY_COUNT,
                forall|j: int| 0 <= j < k ==> !self@[j],
            decreases KEY_COUNT - k,
        {
            self.pressed.set(k, false);
            k += 1;
        }
        let mut i: usize = 0;
        while i < pressed_keys.len()
            invariant
                i <= pressed_keys@.len(),
                self@.len() == KEY_COUNT,
                forall|k: int|
                    0 <= k < KEY_COUNT ==> (#[trigger] self@[k] <==> exists|j: int|
                        0 <= j < i && pressed_keys@[j] == k),
            decreases pressed_keys@.len() - i,
        {
            let key = pressed_keys[i];
            if key < 16 {
                self.pressed.set(key as usize, true);
            }
            assert forall|k: int| 0 <= k < KEY_COUNT implies (#[trigger] self@[k] <==> exists|j: int|
                0 <= j < i + 1 && pressed_keys@[j] == k) by {
                if self@[k] && k != key {
                    let j = choose|j: int| 0 <= j < i && pressed_keys@[j] == k;
                    assert(0 <= j < i + 1 && pressed_keys@[j] == k);
                }
                if exists|j: int| 0 <= j < i + 1 && pressed_keys@[j] == k {
                    let j = choose|j: int| 0 <= j < i + 1 && pressed_keys@[j] == k;
                    if j < i {
                        assert(0 <= j < i && pressed_keys@[j] == k);
                    }
                }
            }
            i += 1;
        }
    }

    /// Whether `chip8_key` is a key of the keypad and is held.
    pub fn is_key_pressed(&self, chip8_key: u8) -> (r: bool)
        requires
            self.wf(),
        ensures
            r == key_down(self@, chip8_key as int),
    {
        if (chip8_key as usize) < KEY_COUNT {
            self.pressed[chip8_key as usize]
        } else {
            false
        }
    }

    /// The lowest key that is held, if any.
    pub fn get_key_press(&self) -> (r: Option<u8>)
        requires
            self.wf(),
        ensures
            r == first_pressed(self@),
            r matches Some(k) ==> k < KEY_COUNT && self@[k as int] && forall|j: int|
                0 <= j < k ==> !self@[j],
            r is None ==> forall|j: int| 0 <= j < KEY_COUNT ==> !self@[j],
    {
        let mut i: usize = 0;
        while i < KEY_COUNT
            invariant
                i <= KEY_COUNT,
                self@.len() == KEY_COUNT,
                forall|j: int| 0 <= j < i ==> !self@[j],
                first_pressed(self@) == first_from(self@, i as int),
            decreases KEY_COUNT - i,
        {
            if self.pressed[i] {
                return Some(i as u8);
            }
            i += 1;
        }
        None
    }
}

} // verus!
