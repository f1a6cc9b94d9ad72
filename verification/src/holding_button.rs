//! The run condition for pointer-driven camera systems: is a given button
//! currently held down?

use vstd::prelude::*;

verus! {

/// The set of buttons currently held down, as the input layer reports them.
pub struct ButtonInput {
    pressed: Vec<u32>,
}

impl ButtonInput {
    /// The buttons currently held down.
    pub closed spec fn pressed_buttons(self) -> Seq<u32> {
        self.pressed@
    }

    /// No button held down.
    pub fn new() -> (r: ButtonInput)
        ensures
            r.pressed_buttons() == Seq::<u32>::empty(),
    {
        ButtonInput { pressed: Vec::new() }
    }

    /// Records a button as held down.
    pub fn press(&mut self, button: u32)
        ensures
            final(self).pressed_buttons() == old(self).pressed_buttons().push(button),
    {
        self.pressed.push(button);
    }

    /// Whether the given button is held down.
    pub fn pressed(&self, button: u32) -> (r: bool)
        ensures
            r == self.pressed_buttons().contains(button),
    {
        let button_count = self.pressed.len();
        let mut i: usize = 0;
        while i < button_count
            invariant
                0 <= i <= button_count,
                button_count == self.pressed@.len(),
                forall|j: int| 0 <= j < i ==> self.pressed@[j] != button,
            decreases button_count - i,
        {
            if self.pressed[i] == button {
                return true;
            }
            i = i + 1;
        }
        false
    }
}

/// Whether the given button is held down: the run condition that gates the
/// rotation system.
pub fn holding_button(input: &ButtonInput, button: u32) -> (r: bool)
    ensures
        r == input.pressed_buttons().contains(button),
{
    input.pressed(button)
}

} // verus!
