use vstd::prelude::*;

verus! {

/// The logical actions a tank responds to, apart from the devices bound to them.
#[derive(Clone, Copy, Debug, PartialEq, Eq, Hash, Structural)]
pub enum Action {
    Move,
    Shoot,
    Aim,
}

/// What one frame resolved for one action: whether it is held, and its axis, if any.
#[derive(Clone, Copy, Debug)]
pub struct ActionData<V> {
    pub pressed: bool,
    pub axis: Option<V>,
}

/// One entity's resolved input for the current frame, keyed by logical action.
///
/// The axis type `V` is the host's two-dimensional vector; the snapshot only
/// stores and hands back axis values, it never reads them.
#[derive(Clone, Copy, Debug)]
pub struct ActionSnapshot<V> {
    pub move_data: ActionData<V>,
    pub shoot_data: ActionData<V>,
    pub aim_data: ActionData<V>,
}

impl<V> ActionSnapshot<V> {
    /// The state held for action `a`.
    pub open spec fn data(&self, a: Action) -> ActionData<V> {
        match a {
            Action::Move => self.move_data,
            Action::Shoot => self.shoot_data,
            Action::Aim => self.aim_data,
        }
    }

    /// `other` holds the same state as `self` for every action but `a`.
    pub open spec fn same_except(&self, other: &Self, a: Action) -> bool {
        forall|b: Action| b != a ==> #[trigger] other.data(b) == self.data(b)
    }

    /// A snapshot in which no action is held and no axis is set.
    pub fn new() -> (r: Self)
        ensures
            forall|a: Action| !(#[trigger] r.data(a)).pressed && r.data(a).axis is None,
    {
        ActionSnapshot {
            move_data: ActionData { pressed: false, axis: None },
            shoot_data: ActionData { pressed: false, axis: None },
            aim_data: ActionData { pressed: false, axis: None },
        }
    }

    fn data_mut(&mut self, a: Action) -> (r: &mut ActionData<V>)
        ensures
            *r == old(self).data(a),
            final(self).data(a) == *final(r),
            old(self).same_except(final(self), a),
    {
        match a {
            Action::Move => &mut self.move_data,
            Action::Shoot => &mut self.shoot_data,
            Action::Aim => &mut self.aim_data,
        }
    }

    /// Marks action `a` as held for this frame, keeping its axis.
    pub fn press(&mut self, a: Action)
        ensures
            final(self).data(a).pressed,
            final(self).data(a).axis == old(self).data(a).axis,
            old(self).same_except(final(self), a),
    {
        let d = self.data_mut(a);
        d.pressed = true;
    }

    /// Marks action `a` as not held, keeping its axis.
    pub fn release(&mut self, a: Action)
        ensures
            !final(self).data(a).pressed,
            final(self).data(a).axis == old(self).data(a).axis,
            old(self).same_except(final(self), a),
    {
        let d = self.data_mut(a);
        d.pressed = false;
    }

    /// Sets the axis value of action `a`, keeping whether it is held.
    pub fn set_axis(&mut self, a: Action, v: V)
        ensures
            final(self).data(a).axis == Some(v),
            final(self).data(a).pressed == old(self).data(a).pressed,
            old(self).same_except(final(self), a),
    {
        let d = self.data_mut(a);
        d.axis = Some(v);
    }

    /// Removes the axis value of action `a`, keeping whether it is held.
    pub fn clear_axis(&mut self, a: Action)
        ensures
            final(self).data(a).axis is None,
            final(self).data(a).pressed == old(self).data(a).pressed,
            old(self).same_except(final(self), a),
    {
        let d = self.data_mut(a);
        d.axis = None;
    }

    /// Whether action `a` is held this frame.
    pub fn is_pressed(&self, a: Action) -> (r: bool)
        ensures
            r == self.data(a).pressed,
    {
        match a {
            Action::Move => self.move_data.pressed,
            Action::Shoot => self.shoot_data.pressed,
            Action::Aim => self.aim_data.pressed,
        }
    }

    /// The axis value of action `a`, if one is set.
    pub fn axis(&self, a: Action) -> (r: Option<&V>)
        ensures
            r matches Some(v) ==> self.data(a).axis == Some(*v),
            r is None <==> self.data(a).axis is None,
    {
        let d = match a {
            Action::Move => &self.move_data,
            Action::Shoot => &self.shoot_data,
            Action::Aim => &self.aim_data,
        };
        match &d.axis {
            Some(v) => Some(v),
            None => None,
        }
    }
}

} // verus!
