use vstd::prelude::*;
use crate::components::VirtualInput;

verus! {

/// The on-screen buttons.
#[derive(Clone, Copy, PartialEq, Eq, Structural, Debug)]
pub enum TouchButton {
    Left,
    Right,
    Jump,
}

/// Whether the last of the buttons of kind `b` in `buttons` is pressed;
/// false where there is none.
pub open spec fn last_press(buttons: Seq<(TouchButton, bool)>, b: TouchButton) -> bool
    decreases buttons.len(),
{
    if buttons.len() == 0 {
        false
    } else if buttons.last().0 == b {
        buttons.last().1
    } else {
        last_press(buttons.drop_last(), b)
    }
}

/// A button goes down: pressed now and not in the frame before.
pub open spec fn spec_rising_edge(pressed: bool, was_pressed: bool) -> bool {
    pressed && !was_pressed
}

/// A button goes down: pressed now and not in the frame before.
pub fn rising_edge(pressed: bool, was_pressed: bool) -> (res: bool)
    ensures
        res == spec_rising_edge(pressed, was_pressed),
        res ==> pressed,
        res ==> !was_pressed,
        pressed && !was_pressed ==> res,
{
    pressed && !was_pressed
}

/// Reads the on-screen buttons, each with whether it is pressed, in the
/// order they are visited; `prev_jump` is whether jump was held in the
/// frame before. Returns whether jump is held now, for the next frame.
pub fn update_virtual_input(
    vi: &mut VirtualInput,
    buttons: &Vec<(TouchButton, bool)>,
    prev_jump: bool,
) -> (jump_now: bool)
    ensures
        final(vi).left == last_press(buttons@, TouchButton::Left),
        final(vi).right == last_press(buttons@, TouchButton::Right),
        final(vi).jump == last_press(buttons@, TouchButton::Jump),
        final(vi).jump_just == spec_rising_edge(final(vi).jump, prev_jump),
        final(vi).jump_just ==> final(vi).jump && !prev_jump,
        final(vi).jump && !prev_jump ==> final(vi).jump_just,
        jump_now == final(vi).jump,
{
    vi.left = false;
    vi.right = false;
    vi.jump = false;
    let mut i: usize = 0;
    while i < buttons.len()
        invariant
            i <= buttons@.len(),
            vi.left == last_press(buttons@.take(i as int), TouchButton::Left),
            vi.right == last_press(buttons@.take(i as int), TouchButton::Right),
            vi.jump == last_press(buttons@.take(i as int), TouchButton::Jump),
        decreases buttons@.len() - i,
    {
        let (b, pressed) = buttons[i];
        match b {
            TouchButton::Left => vi.left = pressed,
            TouchButton::Right => vi.right = pressed,
            TouchButton::Jump => vi.jump = pressed,
        }
        assert(buttons@.take(i + 1).drop_last() =~= buttons@.take(i as int));
        i = i + 1;
    }
    assert(buttons@.take(i as int) =~= buttons@);
    vi.jump_just = rising_edge(vi.jump, prev_jump);
    vi.jump
}


/// A press is seen only when the button goes down: never while it is up,
/// never while it stays down, and always in the frame it goes down. So a
/// release is never a press, and holding a button gives one press only.
pub proof fn lemma_rising_edge_is_a_press(pressed: bool, was_pressed: bool)
    ensures
        !pressed ==> !spec_rising_edge(pressed, was_pressed),
        !spec_rising_edge(pressed, pressed),
        pressed && !was_pressed ==> spec_rising_edge(pressed, was_pressed),
        spec_rising_edge(pressed, was_pressed) ==> !spec_rising_edge(pressed, pressed),
{
}


/// A button's state is that of the last button of its kind visited: a
/// button read last decides, buttons of other kinds do not matter, and
/// without any button of the kind it reads as up.
pub proof fn lemma_last_press(buttons: Seq<(TouchButton, bool)>, b: TouchButton, other: TouchButton, p: bool)
    requires
        other != b,
    ensures
        last_press(buttons.push((b, p)), b) == p,
        last_press(buttons.push((other, p)), b) == last_press(buttons, b),
        last_press(Seq::empty(), b) == false,
{
    assert(buttons.push((b, p)).drop_last() =~= buttons);
    assert(buttons.push((other, p)).drop_last() =~= buttons);
}

} // verus!
