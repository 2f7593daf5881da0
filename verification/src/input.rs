//! Classification of input events into actions. Only press transitions act:
//! key repeats and releases arrive as `KeyOther` / `PointerOther` and are
//! ignored, so one physical press triggers at most one action. A pointer
//! press is a pet-action exactly when it lands inside the current hit
//! region; the keyboard pet keys act unconditionally.

use crate::region::HitRegion;
use vstd::prelude::*;

verus! {

/// The key carried by a key-press event, reduced to what dispatch reads.
#[derive(Clone, Copy, PartialEq, Eq, Structural, Debug)]
pub enum KeyCode {
    /// A printable character key.
    Char(char),
    Enter,
    Escape,
    /// Any other key.
    Other,
}

/// One event from the input source, classified by kind.
#[derive(Clone, Copy, PartialEq, Eq, Structural, Debug)]
pub enum InputEvent {
    /// A key went down.
    KeyPress(KeyCode),
    /// A key event that is not a press (repeat, release).
    KeyOther,
    /// The primary pointer button went down at the given column and row.
    PointerPress(u16, u16),
    /// Any other pointer event (movement, release, other buttons, scroll).
    PointerOther,
    /// The display was resized; layout is recomputed on the next render.
    Resize,
    /// Anything else the input source reports.
    Other,
}

/// What an event asks the application to do.
#[derive(Clone, Copy, PartialEq, Eq, Structural, Debug)]
pub enum Action {
    /// Ignore the event.
    Nothing,
    /// Pet the pet: raise happiness, count a squeak, trigger a cue.
    Pet,
    /// Advance the appearance variant.
    CycleSkin,
    /// Leave the event loop cleanly.
    Quit,
}

/// The action an event maps to, given the hit region current at the time of
/// the event: 'q' and escape quit; 'p', enter and space pet; 's' cycles the
/// skin; a primary pointer press pets exactly when it lands inside the hit
/// region; everything else does nothing.
pub open spec fn dispatch_spec(e: InputEvent, region: HitRegion) -> Action {
    match e {
        InputEvent::KeyPress(k) => match k {
            KeyCode::Char(c) => if c == 'q' {
                Action::Quit
            } else if c == 'p' || c == ' ' {
                Action::Pet
            } else if c == 's' {
                Action::CycleSkin
            } else {
                Action::Nothing
            },
            KeyCode::Enter => Action::Pet,
            KeyCode::Escape => Action::Quit,
            KeyCode::Other => Action::Nothing,
        },
        InputEvent::PointerPress(px, py) => if region.contains_spec(px, py) {
            Action::Pet
        } else {
            Action::Nothing
        },
        _ => Action::Nothing,
    }
}

/// Map one classified event to its action under the given hit region.
pub fn dispatch(e: &InputEvent, region: &HitRegion) -> (a: Action)
    ensures
        a == dispatch_spec(*e, *region),
{
    match e {
        InputEvent::KeyPress(k) => match k {
            KeyCode::Char(c) => {
                if *c == 'q' {
                    Action::Quit
                } else if *c == 'p' || *c == ' ' {
                    Action::Pet
                } else if *c == 's' {
                    Action::CycleSkin
                } else {
                    Action::Nothing
                }
            },
            KeyCode::Enter => Action::Pet,
            KeyCode::Escape => Action::Quit,
            KeyCode::Other => Action::Nothing,
        },
        InputEvent::PointerPress(px, py) => {
            if region.contains(*px, *py) {
                Action::Pet
            } else {
                Action::Nothing
            }
        },
        _ => Action::Nothing,
    }
}

} // verus!
