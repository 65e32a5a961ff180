use vstd::prelude::*;

use crate::action::{Action, ActionData, ActionSnapshot};

verus! {

/// Where a camera draws.
#[derive(Clone, Copy, Debug, PartialEq, Eq, Structural)]
pub enum CameraTarget {
    /// The primary window.
    PrimaryWindow,
    /// Another window.
    OtherWindow,
    /// An image or texture off screen.
    Offscreen,
}

/// The index of the first camera in `targets` that draws to the primary
/// window, or `None` where none does.
pub fn primary_camera(targets: &Vec<CameraTarget>) -> (r: Option<usize>)
    ensures
        r matches Some(i) ==> i < targets@.len() && targets@[i as int] == CameraTarget::PrimaryWindow
            && forall|j: int| 0 <= j < i ==> targets@[j] != CameraTarget::PrimaryWindow,
        r is None ==> forall|j: int| 0 <= j < targets@.len() ==> targets@[j] != CameraTarget::PrimaryWindow,
{
    let mut i: usize = 0;
    while i < targets.len()
        invariant
            i <= targets@.len(),
            forall|j: int| 0 <= j < i ==> targets@[j] != CameraTarget::PrimaryWindow,
        decreases targets@.len() - i,
    {
        if targets[i] == CameraTarget::PrimaryWindow {
            return Some(i);
        }
        i = i + 1;
    }
    None
}

/// Writes a pointer-derived aim into a mouse-aimed entity's snapshot.
///
/// `direction` is the unit vector from the tank's pivot to the pointer, or
/// `None` when no pointer position is available this frame, in which case
/// nothing is written and the previous aim stays. Otherwise the Aim axis is
/// overwritten, whatever a stick wrote, and Aim is held.
pub fn aim_with_cursor<V>(actions: &mut ActionSnapshot<V>, direction: Option<V>)
    ensures
        direction is None ==> *final(actions) == *old(actions),
        direction matches Some(d) ==> final(actions).data(Action::Aim) == (ActionData {
            pressed: true,
            axis: Some(d),
        }),
        old(actions).same_except(final(actions), Action::Aim),
{
    match direction {
        Some(d) => {
            actions.set_axis(Action::Aim, d);
            actions.press(Action::Aim);
        },
        None => {},
    }
}

} // verus!
