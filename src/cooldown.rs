use vstd::prelude::*;

verus! {

/// The least time that must pass between two shots of one tank, in nanoseconds.
#[derive(Clone, Copy, Debug, PartialEq, Eq, Structural)]
pub struct ShotCooldown(pub u64);

/// A tank whose last shot was at `last_shot` may fire at `now` once at least
/// `cooldown` has passed since.
pub open spec fn may_fire(last_shot: int, now: int, cooldown: int) -> bool {
    now - last_shot >= cooldown
}

impl ShotCooldown {
    /// Whether at least this cooldown has passed from `last_shot` to `now`.
    pub fn has_elapsed(&self, last_shot: i64, now: i64) -> (r: bool)
        ensures
            r == may_fire(last_shot as int, now as int, self.0 as int),
    {
        (now as i128) - (last_shot as i128) >= self.0 as i128
    }
}

} // verus!
