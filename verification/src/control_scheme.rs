//! Which button does what.

use vstd::prelude::*;

verus! {

/// Something a person can press.
#[derive(Copy, Clone, PartialEq, Eq, Structural, Debug)]
pub enum ControlButton {
    /// A mouse button, by its number.
    Mouse(u16),
    /// A key, by its code.
    Key(u32),
    WheelUp,
    WheelDown,
}

/// What a button can be bound to.
#[derive(Copy, Clone, PartialEq, Eq, Structural, Debug)]
pub enum ControlAction {
    Aim,
    MoveForward,
    MoveBackward,
    MoveLeft,
    MoveRight,
    Jump,
    Run,
    NextWeapon,
    PrevWeapon,
    TossGrenade,
    Shoot,
}

#[derive(Copy, Clone, PartialEq, Eq, Structural, Debug)]
pub struct ControlScheme {
    pub move_forward: ControlButton,
    pub move_backward: ControlButton,
    pub move_left: ControlButton,
    pub move_right: ControlButton,
    pub jump: ControlButton,
    pub shoot: ControlButton,
    pub next_weapon: ControlButton,
    pub prev_weapon: ControlButton,
    pub run: ControlButton,
    pub aim: ControlButton,
    pub toss_grenade: ControlButton,
    /// How far the view turns for one unit of mouse travel in one second,
    /// in thousandths of a degree.
    pub mouse_sens: u32,
}

/// What reaches the player from the devices of the host.
#[derive(Copy, Clone, PartialEq, Eq, Structural, Debug)]
pub enum InputEvent {
    /// A key or a mouse button went down or came up.
    Button { button: ControlButton, pressed: bool },
    /// The wheel turned: away from the person if `delta` is zero or
    /// more, toward the person if it is negative.
    Wheel { delta: i32 },
    /// The mouse moved.
    MouseMotion { dx: i32, dy: i32 },
    /// Anything else.
    Other,
}

impl ControlScheme {
    /// The action that a button is bound to. Where a button is bound to
    /// several, the first in this order counts: aim, the four moves, jump,
    /// run, next weapon, previous weapon, toss, shoot.
    pub open spec fn spec_action_of(&self, button: ControlButton) -> Option<ControlAction> {
        if button == self.aim {
            Some(ControlAction::Aim)
        } else if button == self.move_forward {
            Some(ControlAction::MoveForward)
        } else if button == self.move_backward {
            Some(ControlAction::MoveBackward)
        } else if button == self.move_left {
            Some(ControlAction::MoveLeft)
        } else if button == self.move_right {
            Some(ControlAction::MoveRight)
        } else if button == self.jump {
            Some(ControlAction::Jump)
        } else if button == self.run {
            Some(ControlAction::Run)
        } else if button == self.next_weapon {
            Some(ControlAction::NextWeapon)
        } else if button == self.prev_weapon {
            Some(ControlAction::PrevWeapon)
        } else if button == self.toss_grenade {
            Some(ControlAction::TossGrenade)
        } else if button == self.shoot {
            Some(ControlAction::Shoot)
        } else {
            None
        }
    }

    pub fn action_of(&self, button: ControlButton) -> (r: Option<ControlAction>)
        ensures
            r == self.spec_action_of(button),
    {
        if button == self.aim {
            Some(ControlAction::Aim)
        } else if button == self.move_forward {
            Some(ControlAction::MoveForward)
        } else if button == self.move_backward {
            Some(ControlAction::MoveBackward)
        } else if button == self.move_left {
            Some(ControlAction::MoveLeft)
        } else if button == self.move_right {
            Some(ControlAction::MoveRight)
        } else if button == self.jump {
            Some(ControlAction::Jump)
        } else if button == self.run {
            Some(ControlAction::Run)
        } else if button == self.next_weapon {
            Some(ControlAction::NextWeapon)
        } else if button == self.prev_weapon {
            Some(ControlAction::PrevWeapon)
        } else if button == self.toss_grenade {
            Some(ControlAction::TossGrenade)
        } else if button == self.shoot {
            Some(ControlAction::Shoot)
        } else {
            None
        }
    }
}

impl InputEvent {
    /// The button that an event stands for, and whether it went down. A
    /// turn of the wheel is a press of one of the two wheel buttons.
    pub open spec fn spec_button_state(self) -> Option<(ControlButton, bool)> {
        match self {
            InputEvent::Button { button, pressed } => Some((button, pressed)),
            InputEvent::Wheel { delta } => Some(
                (
                    if delta < 0 {
                        ControlButton::WheelDown
                    } else {
                        ControlButton::WheelUp
                    },
                    true,
                ),
            ),
            _ => None,
        }
    }

    pub fn button_state(self) -> (r: Option<(ControlButton, bool)>)
        ensures
            r == self.spec_button_state(),
    {
        match self {
            InputEvent::Button { button, pressed } => Some((button, pressed)),
            InputEvent::Wheel { delta } => Some(
                (
                    if delta < 0 {
                        ControlButton::WheelDown
                    } else {
                        ControlButton::WheelUp
                    },
                    true,
                ),
            ),
            _ => None,
        }
    }
}

/// How far the view turns for a mouse travel of `delta` during a tick of
/// `dt` thousandths of a second, in thousandths of a degree: the product
/// of travel, sensitivity and time, rounded toward zero, and no more
/// than fits.
pub open spec fn spec_turn(delta: i32, sens: u32, dt: u32) -> int {
    let travel: int = if delta < 0 {
        -delta
    } else {
        delta as int
    };
    let magnitude: int = (travel * sens * dt) / 1000;
    let capped: int = if magnitude > i64::MAX {
        i64::MAX as int
    } else {
        magnitude
    };
    if delta < 0 {
        -capped
    } else {
        capped
    }
}

pub fn turn(delta: i32, sens: u32, dt: u32) -> (r: i64)
    ensures
        r == spec_turn(delta, sens, dt),
{
    let travel: u128 = if delta < 0 {
        (-(delta as i64)) as u128
    } else {
        delta as u128
    };
    assert(travel * sens <= 0x8000_0000 * 0xffff_ffff) by (nonlinear_arith)
        requires
            travel <= 0x8000_0000,
            sens <= 0xffff_ffff,
    ;
    let scaled: u128 = travel * (sens as u128);
    assert(scaled * dt <= 0x8000_0000 * 0xffff_ffff * 0xffff_ffff) by (nonlinear_arith)
        requires
            scaled <= 0x8000_0000 * 0xffff_ffff,
            dt <= 0xffff_ffff,
    ;
    let product: u128 = scaled * (dt as u128);
    let magnitude: u128 = product / 1000;
    let capped: i64 = if magnitude > i64::MAX as u128 {
        i64::MAX
    } else {
        magnitude as i64
    };
    if delta < 0 {
        -capped
    } else {
        capped
    }
}

} // verus!
