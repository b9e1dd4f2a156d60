use vstd::prelude::*;
use crate::config::{Button, ClickType, LocationMode, StartConfig};

verus! {

/// One call into the platform's input-injection facility.
#[derive(Clone, Copy, Debug, PartialEq, Eq, Structural)]
pub enum InputAction {
    /// Move the pointer to absolute screen coordinates.
    MoveTo { x: i32, y: i32 },
    /// Press and release a button.
    Click { button: Button },
}

/// The button presses of one logical click: one, or two for a double click.
pub open spec fn presses_of(c: StartConfig) -> Seq<InputAction> {
    let press = InputAction::Click { button: c.button };
    match c.click_type {
        ClickType::Single => seq![press],
        ClickType::Double => seq![press, press],
    }
}

/// The actions of one logical click: a move to the fixed target first when the
/// location is fixed, then the button presses.
pub open spec fn click_plan_of(c: StartConfig) -> Seq<InputAction> {
    match c.location_mode {
        LocationMode::Cursor => presses_of(c),
        LocationMode::Fixed => seq![InputAction::MoveTo { x: c.fixed_x, y: c.fixed_y }].add(
            presses_of(c),
        ),
    }
}

/// The number of actions that precede the button presses.
pub open spec fn move_count(c: StartConfig) -> int {
    match c.location_mode {
        LocationMode::Cursor => 0,
        LocationMode::Fixed => 1,
    }
}

/// The number of button presses per logical click.
pub open spec fn press_count(c: StartConfig) -> int {
    match c.click_type {
        ClickType::Single => 1,
        ClickType::Double => 2,
    }
}

/// The actions that make up one logical click under `c`, in order.
pub fn click_once(c: &StartConfig) -> (r: Vec<InputAction>)
    ensures
        r@ == click_plan_of(*c),
        r@.len() == move_count(*c) + press_count(*c),
        c.location_mode == LocationMode::Fixed ==> r@[0] == (InputAction::MoveTo {
            x: c.fixed_x,
            y: c.fixed_y,
        }),
        forall|i: int|
            move_count(*c) <= i < r@.len() ==> r@[i] == (InputAction::Click { button: c.button }),
{
    let mut r: Vec<InputAction> = Vec::new();
    if c.location_mode == LocationMode::Fixed {
        r.push(InputAction::MoveTo { x: c.fixed_x, y: c.fixed_y });
    }
    r.push(InputAction::Click { button: c.button });
    if c.click_type == ClickType::Double {
        r.push(InputAction::Click { button: c.button });
    }
    assert(r@ =~= click_plan_of(*c));
    r
}

} // verus!
