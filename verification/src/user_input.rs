//! The movement pad of a player, read from button events.
//!
//! Four buttons stand for the four directions. The input keeps which of the
//! directions are held and reports a change of movement only when a button
//! event changes one of them, so that the repeated presses of a held key
//! pass without an update.

use crate::buttons::{
    button_of, event_button, event_is_press, is_press, keyboard, keyboard_button, same_button,
};
use piston_window::{Button, ButtonArgs};
use vstd::prelude::*;
use vstd::std_specs::cmp::PartialEqSpec;

verus! {

/// Key code of `W`, the key that stands for up.
pub const KEY_UP: u32 = 0x77;

/// Key code of `S`, the key that stands for down.
pub const KEY_DOWN: u32 = 0x73;

/// Key code of `A`, the key that stands for left.
pub const KEY_LEFT: u32 = 0x61;

/// Key code of `D`, the key that stands for right.
pub const KEY_RIGHT: u32 = 0x64;

/// One of the four directions of a pad.
#[derive(Clone, Copy, Debug, PartialEq, Eq, Structural)]
pub enum Dir {
    Up,
    Down,
    Left,
    Right,
}

/// One value for each of the four directions.
#[derive(Debug, PartialEq, Eq)]
pub struct DirPad<T> {
    pub up: T,
    pub down: T,
    pub left: T,
    pub right: T,
}

impl<T: Clone> Clone for DirPad<T> {
    /// A pad of clones: each value is what cloning the value for the same
    /// direction gives.
    fn clone(&self) -> (r: DirPad<T>)
        ensures
            call_ensures(T::clone, (&self.up,), r.up),
            call_ensures(T::clone, (&self.down,), r.down),
            call_ensures(T::clone, (&self.left,), r.left),
            call_ensures(T::clone, (&self.right,), r.right),
    {
        DirPad {
            up: self.up.clone(),
            down: self.down.clone(),
            left: self.left.clone(),
            right: self.right.clone(),
        }
    }
}

impl<T: Default> Default for DirPad<T> {
    /// A pad of defaults: each value is what `T` gives as its default.
    fn default() -> (r: DirPad<T>)
        ensures
            call_ensures(T::default, (), r.up),
            call_ensures(T::default, (), r.down),
            call_ensures(T::default, (), r.left),
            call_ensures(T::default, (), r.right),
    {
        DirPad { up: T::default(), down: T::default(), left: T::default(), right: T::default() }
    }
}

impl<T> DirPad<T> {
    /// The value for a direction.
    pub open spec fn at(self, dir: Dir) -> T {
        match dir {
            Dir::Up => self.up,
            Dir::Down => self.down,
            Dir::Left => self.left,
            Dir::Right => self.right,
        }
    }

    /// The pad with the value for one direction replaced.
    pub open spec fn with(self, dir: Dir, value: T) -> DirPad<T> {
        match dir {
            Dir::Up => DirPad { up: value, ..self },
            Dir::Down => DirPad { down: value, ..self },
            Dir::Left => DirPad { left: value, ..self },
            Dir::Right => DirPad { right: value, ..self },
        }
    }

    /// The value for a direction.
    pub fn index(&self, index: Dir) -> (r: &T)
        ensures
            *r == self.at(index),
    {
        match index {
            Dir::Up => &self.up,
            Dir::Down => &self.down,
            Dir::Left => &self.left,
            Dir::Right => &self.right,
        }
    }

    /// The place of the value for a direction, to write to.
    pub fn index_mut(&mut self, index: Dir) -> (r: &mut T)
        ensures
            *r == old(self).at(index),
            *final(self) == old(self).with(index, *final(r)),
    {
        match index {
            Dir::Up => &mut self.up,
            Dir::Down => &mut self.down,
            Dir::Left => &mut self.left,
            Dir::Right => &mut self.right,
        }
    }
}

impl<T: PartialEq> DirPad<T> {
    /// Whether the comparisons of `item` with the values of the pad, made in
    /// the order up, down, left, right until one holds, can end in `found`.
    pub open spec fn finds(self, item: T, found: Option<Dir>) -> bool {
        match found {
            Some(Dir::Up) => call_ensures(T::eq, (&item, &self.up), true),
            Some(Dir::Down) => {
                &&& call_ensures(T::eq, (&item, &self.up), false)
                &&& call_ensures(T::eq, (&item, &self.down), true)
            },
            Some(Dir::Left) => {
                &&& call_ensures(T::eq, (&item, &self.up), false)
                &&& call_ensures(T::eq, (&item, &self.down), false)
                &&& call_ensures(T::eq, (&item, &self.left), true)
            },
            Some(Dir::Right) => {
                &&& call_ensures(T::eq, (&item, &self.up), false)
                &&& call_ensures(T::eq, (&item, &self.down), false)
                &&& call_ensures(T::eq, (&item, &self.left), false)
                &&& call_ensures(T::eq, (&item, &self.right), true)
            },
            None => {
                &&& call_ensures(T::eq, (&item, &self.up), false)
                &&& call_ensures(T::eq, (&item, &self.down), false)
                &&& call_ensures(T::eq, (&item, &self.left), false)
                &&& call_ensures(T::eq, (&item, &self.right), false)
            },
        }
    }

    /// The first direction, in the order up, down, left, right, whose value
    /// equals `item` by the meaning that `T` gives to `==` in contracts.
    pub open spec fn first_equal(self, item: T) -> Option<Dir> {
        if item.eq_spec(&self.up) {
            Some(Dir::Up)
        } else if item.eq_spec(&self.down) {
            Some(Dir::Down)
        } else if item.eq_spec(&self.left) {
            Some(Dir::Left)
        } else if item.eq_spec(&self.right) {
            Some(Dir::Right)
        } else {
            None
        }
    }

    /// The first direction, in the order up, down, left, right, whose value
    /// is equal to `item`, if there is one.
    pub fn dir(&self, item: T) -> (r: Option<Dir>)
        ensures
            self.finds(item, r),
            T::obeys_eq_spec() ==> r == self.first_equal(item),
    {
        if item == self.up {
            Some(Dir::Up)
        } else if item == self.down {
            Some(Dir::Down)
        } else if item == self.left {
            Some(Dir::Left)
        } else if item == self.right {
            Some(Dir::Right)
        } else {
            None
        }
    }
}

/// What a button event changes for the player.
#[derive(Debug, PartialEq, Eq)]
pub enum DeviceUpdate {
    /// Nothing.
    Nop,
    /// The directions that are held, after a change of one of them.
    ChangeMovement { dirs: DirPad<bool> },
}

/// The direction that a button stands for on a pad of buttons: the first,
/// in the order up, down, left, right, whose button is the same.
pub open spec fn control_dir(controls: DirPad<Button>, button: Button) -> Option<Dir> {
    if same_button(button, controls.up) {
        Some(Dir::Up)
    } else if same_button(button, controls.down) {
        Some(Dir::Down)
    } else if same_button(button, controls.left) {
        Some(Dir::Left)
    } else if same_button(button, controls.right) {
        Some(Dir::Right)
    } else {
        None
    }
}

/// The buttons of the movement pad: the four keys of the key codes above.
pub open spec fn movement_keys() -> DirPad<Button> {
    DirPad {
        up: keyboard_button(KEY_UP),
        down: keyboard_button(KEY_DOWN),
        left: keyboard_button(KEY_LEFT),
        right: keyboard_button(KEY_RIGHT),
    }
}

/// The directions held after an event for `button`: the direction that the
/// button stands for follows the event, the others stay.
pub open spec fn held_after(
    controls: DirPad<Button>,
    held: DirPad<bool>,
    button: Button,
    pressed: bool,
) -> DirPad<bool> {
    match control_dir(controls, button) {
        Some(dir) => held.with(dir, pressed),
        None => held,
    }
}

/// The update that an event for `button` gives: a change of movement, with
/// the directions held after it, if the button stands for a direction whose
/// state the event changes, and nothing otherwise.
pub open spec fn update_for(
    controls: DirPad<Button>,
    held: DirPad<bool>,
    button: Button,
    pressed: bool,
) -> DeviceUpdate {
    match control_dir(controls, button) {
        Some(dir) => if held.at(dir) != pressed {
            DeviceUpdate::ChangeMovement { dirs: held.with(dir, pressed) }
        } else {
            DeviceUpdate::Nop
        },
        None => DeviceUpdate::Nop,
    }
}

/// The input of one player: the buttons of the movement pad and which of
/// its directions are held.
pub struct Input {
    move_controls: DirPad<Button>,
    dirs: DirPad<bool>,
}

impl Input {
    /// The buttons of the movement pad.
    pub closed spec fn controls(&self) -> DirPad<Button> {
        self.move_controls
    }

    /// The directions that are held.
    pub closed spec fn held(&self) -> DirPad<bool> {
        self.dirs
    }

    /// An input with the movement keys as its pad and no direction held.
    pub fn new() -> (r: Input)
        ensures
            r.controls() == movement_keys(),
            r.held() == (DirPad { up: false, down: false, left: false, right: false }),
    {
        let move_controls = DirPad {
            up: keyboard(KEY_UP),
            down: keyboard(KEY_DOWN),
            left: keyboard(KEY_LEFT),
            right: keyboard(KEY_RIGHT),
        };
        let dirs: DirPad<bool> = DirPad::default();
        Input { move_controls, dirs }
    }

    /// The directions that are held.
    pub fn dirs(&self) -> (r: DirPad<bool>)
        ensures
            r == self.held(),
    {
        self.dirs.clone()
    }

    /// Takes a press or a release of `button`.
    pub fn button_changed(&mut self, button: Button, pressed: bool) -> (r: DeviceUpdate)
        ensures
            final(self).controls() == old(self).controls(),
            final(self).held() == held_after(
                old(self).controls(),
                old(self).held(),
                button,
                pressed,
            ),
            r == update_for(old(self).controls(), old(self).held(), button, pressed),
    {
        if let Some(dir) = self.move_controls.dir(button) {
            if *self.dirs.index(dir) != pressed {
                *self.dirs.index_mut(dir) = pressed;
                DeviceUpdate::ChangeMovement { dirs: self.dirs.clone() }
            } else {
                DeviceUpdate::Nop
            }
        } else {
            DeviceUpdate::Nop
        }
    }

    /// Takes a button event.
    pub fn interpret(&mut self, bin: ButtonArgs) -> (r: DeviceUpdate)
        ensures
            final(self).controls() == old(self).controls(),
            final(self).held() == held_after(
                old(self).controls(),
                old(self).held(),
                event_button(bin),
                event_is_press(bin),
            ),
            r == update_for(
                old(self).controls(),
                old(self).held(),
                event_button(bin),
                event_is_press(bin),
            ),
    {
        let button = button_of(&bin);
        let butt_pressed = is_press(&bin);
        self.button_changed(button, butt_pressed)
    }
}

/// An event that repeats the one before it gives no update and changes
/// nothing: a key that is held down sends its press again and again.
pub proof fn repeated_event_is_no_update(
    controls: DirPad<Button>,
    held: DirPad<bool>,
    button: Button,
    pressed: bool,
)
    ensures
        update_for(controls, held_after(controls, held, button, pressed), button, pressed)
            == DeviceUpdate::Nop,
        held_after(controls, held_after(controls, held, button, pressed), button, pressed)
            == held_after(controls, held, button, pressed),
{
}

} // verus!
