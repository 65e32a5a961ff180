use vstd::prelude::*;

use crate::action::{Action, ActionSnapshot};
use crate::cooldown::{may_fire, ShotCooldown};

verus! {

/// A tank body.
///
/// `V` is the host's two-dimensional vector and `S` its scalar: the body's
/// geometry is carried through, and worked out by the host.
#[derive(Clone, Copy, Debug)]
pub struct Tank<V, S> {
    /// When the most recent shot was fired, in nanoseconds on the host's monotonic clock.
    pub last_shot: i64,
    /// The handle of the barrel entity attached to this tank.
    pub barrel_id: u64,
    /// The point the barrel pivots about, in the body's own frame.
    pub pivot_offset: V,
    /// The body's top speed, in world units per second.
    pub speed: S,
}

/// A tank whose barrel follows the pointer rather than an aiming stick.
#[derive(Clone, Copy, Debug, PartialEq, Eq, Structural)]
pub struct AimWithMouse;

/// A tank's barrel: a separate entity whose place derives from its body.
#[derive(Clone, Copy, Debug, PartialEq, Eq, Structural)]
pub struct Barrel;

impl<V, S> Tank<V, S> {
    /// This tank after a shot at `now`.
    pub open spec fn with_shot(self, now: int) -> Self {
        Tank { last_shot: now as i64, ..self }
    }

    /// Whether this tank may fire at `now` under `cooldown`.
    pub open spec fn ready(&self, now: int, cooldown: ShotCooldown) -> bool {
        may_fire(self.last_shot as int, now, cooldown.0 as int)
    }

    /// A tank spawned at `now`, whose cooldown has already elapsed so that its
    /// first shot is available at once.
    pub fn new(barrel_id: u64, pivot_offset: V, speed: S, now: i64, cooldown: ShotCooldown) -> (r: Self)
        requires
            now - cooldown.0 >= i64::MIN,
        ensures
            r.last_shot == now - cooldown.0,
            r.barrel_id == barrel_id,
            r.pivot_offset == pivot_offset,
            r.speed == speed,
            r.ready(now as int, cooldown),
    {
        let last_shot: i64 = ((now as i128) - (cooldown.0 as i128)) as i64;
        Tank { last_shot, barrel_id, pivot_offset, speed }
    }

    /// Whether this tank may fire at `now`: at least `cooldown` has passed
    /// since its last shot.
    pub fn can_fire(&self, now: i64, cooldown: &ShotCooldown) -> (r: bool)
        ensures
            r == self.ready(now as int, *cooldown),
    {
        cooldown.has_elapsed(self.last_shot, now)
    }

    /// Records a shot fired at `now`.
    pub fn record_fire(&mut self, now: i64)
        ensures
            *final(self) == old(self).with_shot(now as int),
    {
        self.last_shot = now;
    }
}

/// A shot keeps the tank from firing at once, for any cooldown longer than zero, and the
/// tank may fire again once at least the cooldown has passed since that shot.
pub proof fn lemma_shot_spacing<V, S>(tank: Tank<V, S>, cooldown: ShotCooldown, fired_at: i64, later: i64)
    requires
        cooldown.0 > 0,
    ensures
        !tank.with_shot(fired_at as int).ready(fired_at as int, cooldown),
        later - fired_at >= cooldown.0 ==> tank.with_shot(fired_at as int).ready(later as int, cooldown),
{
}

/// What becomes of a tank's barrel this frame.
#[derive(Clone, Copy, Debug)]
pub enum BarrelStep<V> {
    /// The barrel was found: turn it to `aim`, if given, then place it at the
    /// body's pivot, pushed out along its own facing.
    Place { aim: Option<V> },
    /// The barrel handle resolves to no barrel: report the tank.
    Missing,
}

/// The decisions of one frame for one tank, read from its finished snapshot.
#[derive(Clone, Copy, Debug)]
pub struct TankUpdate<V> {
    /// The Move axis to steer and drive the body by, if the body moves.
    pub drive: Option<V>,
    /// What to do with the barrel, after the body has moved.
    pub barrel: BarrelStep<V>,
}

/// Decides one frame of a tank's motion from its action snapshot, once every
/// resolver has written it, and from whether its barrel handle resolved.
///
/// The body moves only while Move is held with an axis; a held Move without an
/// axis leaves the body as it is. A missing barrel is reported, and does not
/// keep the body from moving.
pub fn handle_tank_movement<V: Copy>(actions: &ActionSnapshot<V>, barrel_found: bool) -> (r: TankUpdate<V>)
    ensures
        r.drive == (if actions.data(Action::Move).pressed {
            actions.data(Action::Move).axis
        } else {
            None
        }),
        barrel_found ==> r.barrel == (BarrelStep::Place { aim: actions.data(Action::Aim).axis }),
        !barrel_found ==> r.barrel is Missing,
{
    let drive = if actions.is_pressed(Action::Move) {
        match actions.axis(Action::Move) {
            Some(v) => Some(*v),
            None => None,
        }
    } else {
        None
    };
    let barrel = if barrel_found {
        let aim = match actions.axis(Action::Aim) {
            Some(v) => Some(*v),
            None => None,
        };
        BarrelStep::Place { aim }
    } else {
        BarrelStep::Missing
    };
    TankUpdate { drive, barrel }
}

} // verus!
