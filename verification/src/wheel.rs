//! Decisions of the mouse-wheel bridge for the volume shortcuts: the stable
//! one-byte encoding of the configured modifier, whether the modifier is
//! held, and which volume action a wheel notch asks for.

use vstd::prelude::*;
use crate::config::HotkeyModifier;

verus! {

/// Wheel delta of one notch, as reported by the platform.
pub const WHEEL_DELTA: i16 = 120;

/// The actions the global shortcuts (and the wheel gesture) trigger.
#[derive(Debug, Clone, Copy, PartialEq, Eq, Hash, Structural)]
pub enum HotkeyAction {
    VolumeUp,
    VolumeDown,
    VolumeUpLarge,
    VolumeDownLarge,
    ToggleMute,
    Reset50,
    OpenMixer,
    OpenMenu,
}

/// The stable code of each modifier.
pub open spec fn code_of(m: HotkeyModifier) -> u8 {
    match m {
        HotkeyModifier::CtrlAlt => 0,
        HotkeyModifier::Alt => 1,
        HotkeyModifier::Ctrl => 2,
        HotkeyModifier::CapsLock => 3,
    }
}

/// The modifier a stored code stands for; unknown codes read as `CtrlAlt`.
pub open spec fn modifier_of(code: u8) -> HotkeyModifier {
    if code == 1 {
        HotkeyModifier::Alt
    } else if code == 2 {
        HotkeyModifier::Ctrl
    } else if code == 3 {
        HotkeyModifier::CapsLock
    } else {
        HotkeyModifier::CtrlAlt
    }
}

/// Encode a modifier for the wheel bridge's shared state.
pub fn modifier_code(modifier: HotkeyModifier) -> (r: u8)
    ensures
        r == code_of(modifier),
{
    match modifier {
        HotkeyModifier::CtrlAlt => 0,
        HotkeyModifier::Alt => 1,
        HotkeyModifier::Ctrl => 2,
        HotkeyModifier::CapsLock => 3,
    }
}

/// Decode the wheel bridge's stored modifier code.
pub fn modifier_from_code(code: u8) -> (r: HotkeyModifier)
    ensures
        r == modifier_of(code),
{
    match code {
        1 => HotkeyModifier::Alt,
        2 => HotkeyModifier::Ctrl,
        3 => HotkeyModifier::CapsLock,
        _ => HotkeyModifier::CtrlAlt,
    }
}

/// Storing a modifier and reading it back gives the same modifier, and
/// distinct modifiers get distinct codes.
pub proof fn lemma_modifier_code_round_trip(m: HotkeyModifier, n: HotkeyModifier)
    ensures
        modifier_of(code_of(m)) == m,
        m != n ==> code_of(m) != code_of(n),
{
}

/// Whether the configured modifier is held, given whether a Ctrl key and
/// an Alt key are down. CapsLock is a keyboard-only modifier and never
/// enables the wheel gesture.
pub fn modifier_held(modifier: HotkeyModifier, ctrl: bool, alt: bool) -> (r: bool)
    ensures
        r == match modifier {
            HotkeyModifier::CtrlAlt => ctrl && alt,
            HotkeyModifier::Alt => alt,
            HotkeyModifier::Ctrl => ctrl,
            HotkeyModifier::CapsLock => false,
        },
{
    match modifier {
        HotkeyModifier::CtrlAlt => ctrl && alt,
        HotkeyModifier::Alt => alt,
        HotkeyModifier::Ctrl => ctrl,
        HotkeyModifier::CapsLock => false,
    }
}

/// The action a wheel event asks for: none unless the modifier is held and
/// the wheel moved at least one full notch; up or down by the sign of the
/// delta, large when Shift is held.
pub open spec fn wheel_action_for(wheel_delta: i16, modifier_down: bool, shifted: bool) -> Option<
    HotkeyAction,
> {
    if !modifier_down || (-WHEEL_DELTA < wheel_delta && wheel_delta < WHEEL_DELTA) {
        None
    } else if wheel_delta > 0 {
        if shifted {
            Some(HotkeyAction::VolumeUpLarge)
        } else {
            Some(HotkeyAction::VolumeUp)
        }
    } else if shifted {
        Some(HotkeyAction::VolumeDownLarge)
    } else {
        Some(HotkeyAction::VolumeDown)
    }
}

/// Decide the volume action for a wheel event (`wheel_delta` is the signed
/// high word of the event's mouse data).
pub fn wheel_action(wheel_delta: i16, modifier_down: bool, shifted: bool) -> (r: Option<HotkeyAction>)
    ensures
        r == wheel_action_for(wheel_delta, modifier_down, shifted),
        !modifier_down ==> r is None,
        -120 < wheel_delta < 120 ==> r is None,
        modifier_down && wheel_delta >= 120 ==> r == Some(
            if shifted { HotkeyAction::VolumeUpLarge } else { HotkeyAction::VolumeUp },
        ),
        modifier_down && wheel_delta <= -120 ==> r == Some(
            if shifted { HotkeyAction::VolumeDownLarge } else { HotkeyAction::VolumeDown },
        ),
{
    if !modifier_down || (-WHEEL_DELTA < wheel_delta && wheel_delta < WHEEL_DELTA) {
        None
    } else if wheel_delta > 0 {
        if shifted {
            Some(HotkeyAction::VolumeUpLarge)
        } else {
            Some(HotkeyAction::VolumeUp)
        }
    } else if shifted {
        Some(HotkeyAction::VolumeDownLarge)
    } else {
        Some(HotkeyAction::VolumeDown)
    }
}

/// The wheel gesture acts only while the configured modifier is held and
/// the wheel moved at least one full notch (120): then a notch up raises
/// and a notch down lowers the volume, by the large step when Shift is
/// held. Without the modifier every wheel event passes through.
pub proof fn lemma_wheel_gesture(wheel_delta: i16, modifier_down: bool, shifted: bool)
    ensures
        !modifier_down ==> wheel_action_for(wheel_delta, modifier_down, shifted) is None,
        -120 < wheel_delta < 120 ==> wheel_action_for(wheel_delta, modifier_down, shifted) is None,
        modifier_down && wheel_delta >= 120 ==> wheel_action_for(wheel_delta, modifier_down, shifted)
            == Some(if shifted { HotkeyAction::VolumeUpLarge } else { HotkeyAction::VolumeUp }),
        modifier_down && wheel_delta <= -120 ==> wheel_action_for(wheel_delta, modifier_down, shifted)
            == Some(if shifted { HotkeyAction::VolumeDownLarge } else { HotkeyAction::VolumeDown }),
{
}

} // verus!
