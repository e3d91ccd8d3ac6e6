//! Button events as the windowing library gives them.
//!
//! A button and the arguments of a button event are opaque to the verifier.
//! This module names what is read from them and states, without proof, what
//! the few operations on them return.

use piston_window::{Button, ButtonArgs, ButtonState, Key};
use vstd::prelude::*;

verus! {

/// `piston_window::Button`, declared so that it can stand in signatures and
/// fields. Nothing is known of what a button holds.
#[verifier::external_type_specification]
#[verifier::external_body]
pub struct ExButton(Button);

/// `piston_window::ButtonArgs`, declared so that it can stand in signatures.
/// Its fields are read through the two functions below.
#[verifier::external_type_specification]
#[verifier::external_body]
pub struct ExButtonArgs(ButtonArgs);

/// Whether two buttons are the same button: what `==` on `Button` returns.
pub uninterp spec fn same_button(a: Button, b: Button) -> bool;

/// The keyboard button of the key with the given key code: what
/// `Key::from`, wrapped into `Button::Keyboard`, returns.
pub uninterp spec fn keyboard_button(code: u32) -> Button;

/// The button that a button event is about: the field `button` of its
/// arguments.
pub uninterp spec fn event_button(args: ButtonArgs) -> Button;

/// Whether a button event is a press rather than a release: whether the
/// field `state` of its arguments is `ButtonState::Press`.
pub uninterp spec fn event_is_press(args: ButtonArgs) -> bool;

/// `==` on `Button`, which the windowing library derives. Trusted: the
/// result is the sameness of the two buttons by name.
pub assume_specification[ <Button as PartialEq>::eq ](a: &Button, b: &Button) -> (r: bool)
    ensures
        r == same_button(*a, *b),
;

/// Calls `Key::from` on a key code and wraps the key into a button. Trusted:
/// the result is the keyboard button of that code by name.
#[verifier::external_body]
pub(crate) fn keyboard(code: u32) -> (r: Button)
    ensures
        r == keyboard_button(code),
{
    Button::Keyboard(Key::from(code))
}

/// Reads the field `button` of a button event's arguments. Trusted: the
/// result is the event's button by name.
#[verifier::external_body]
pub(crate) fn button_of(args: &ButtonArgs) -> (r: Button)
    ensures
        r == event_button(*args),
{
    args.button
}

/// Tells the two states of the field `state` of a button event's arguments
/// apart. Trusted: the result is whether the event is a press, by name.
#[verifier::external_body]
pub(crate) fn is_press(args: &ButtonArgs) -> (r: bool)
    ensures
        r == event_is_press(*args),
{
    match args.state {
        ButtonState::Press => true,
        ButtonState::Release => false,
    }
}

} // verus!
