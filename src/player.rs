use vstd::prelude::*;

use crate::input::{
    any_held, facing_of, intent_dx, intent_dz, translate_input, Facing, MoveKeys, PLAYER_SPEED,
};

verus! {

/// The displacement signal between the motion step and the camera follow step.
#[derive(Clone, Copy, Debug, PartialEq, Eq, Structural)]
pub enum PlayerState {
    Idle,
    /// The displacement applied on this tick, not yet followed by the cameras.
    Running { dx: i64, dz: i64 },
}

/// The player's place on the ground plane, in world units, and its pending signal.
#[derive(Clone, Copy, Debug, PartialEq, Eq, Structural)]
pub struct Player {
    pub x: i64,
    pub z: i64,
    pub state: PlayerState,
}

/// The character's new transform: translation `(x, 0, z)` and a rotation about the
/// vertical axis, every other part of the transform at its default.
#[derive(Clone, Copy, Debug, PartialEq, Eq, Structural)]
pub struct Pose {
    pub x: i64,
    pub z: i64,
    pub facing: Facing,
}

pub open spec fn fits_step(v: int) -> bool {
    i64::MIN + PLAYER_SPEED <= v <= i64::MAX - PLAYER_SPEED
}

impl Player {
    /// A move of at most one step along each axis stays within `i64`.
    pub open spec fn can_step(self) -> bool {
        fits_step(self.x as int) && fits_step(self.z as int)
    }

    /// The player at the origin, idle.
    pub fn new() -> (r: Player)
        ensures
            r.x == 0,
            r.z == 0,
            r.state == PlayerState::Idle,
    {
        Player { x: 0, z: 0, state: PlayerState::Idle }
    }

    /// Adds a displacement to the position.
    pub fn move_by_vector(&mut self, x_move: i64, z_move: i64)
        requires
            i64::MIN <= old(self).x + x_move <= i64::MAX,
            i64::MIN <= old(self).z + z_move <= i64::MAX,
        ensures
            final(self).x == old(self).x + x_move,
            final(self).z == old(self).z + z_move,
            final(self).state == old(self).state,
    {
        self.x = self.x + x_move;
        self.z = self.z + z_move;
    }
}

/// The player after one motion step on `keys`: unchanged when no key is held, else
/// displaced by the intent and marked running with it.
pub open spec fn step(p: Player, keys: MoveKeys) -> Player {
    if any_held(keys) {
        Player {
            x: (p.x + intent_dx(keys)) as i64,
            z: (p.z + intent_dz(keys)) as i64,
            state: PlayerState::Running {
                dx: intent_dx(keys) as i64,
                dz: intent_dz(keys) as i64,
            },
        }
    } else {
        p
    }
}

/// The pose written for one motion step on `keys`, if any.
pub open spec fn pose_of(p: Player, keys: MoveKeys) -> Option<Pose> {
    match facing_of(keys) {
        Some(f) => Some(Pose { x: step(p, keys).x, z: step(p, keys).z, facing: f }),
        None => None,
    }
}

/// Applies one tick of direction keys to the player. When a key is held, the player
/// moves by the intent, is marked running with it, and the new pose is returned;
/// otherwise nothing changes and no pose is returned.
pub fn move_player(player: &mut Player, keys: MoveKeys) -> (r: Option<Pose>)
    requires
        old(player).can_step(),
    ensures
        *final(player) == step(*old(player), keys),
        r == pose_of(*old(player), keys),
        r is Some <==> any_held(keys),
{
    let intent = translate_input(keys);
    match intent.facing {
        Some(facing) => {
            player.state = PlayerState::Running { dx: intent.dx, dz: intent.dz };
            player.move_by_vector(intent.dx, intent.dz);
            Some(Pose { x: player.x, z: player.z, facing })
        },
        None => None,
    }
}

/// Where the player stands after a run of ticks.
pub open spec fn walk(p: Player, ticks: Seq<MoveKeys>) -> Player
    decreases ticks.len(),
{
    if ticks.len() == 0 {
        p
    } else {
        step(walk(p, ticks.drop_last()), ticks.last())
    }
}

pub open spec fn sum_dx(ticks: Seq<MoveKeys>) -> int
    decreases ticks.len(),
{
    if ticks.len() == 0 {
        0
    } else {
        sum_dx(ticks.drop_last()) + intent_dx(ticks.last())
    }
}

pub open spec fn sum_dz(ticks: Seq<MoveKeys>) -> int
    decreases ticks.len(),
{
    if ticks.len() == 0 {
        0
    } else {
        sum_dz(ticks.drop_last()) + intent_dz(ticks.last())
    }
}

/// The displacement of `keys` has magnitude at most one step per axis.
pub proof fn lemma_intent_bounded(keys: MoveKeys)
    ensures
        -PLAYER_SPEED <= intent_dx(keys) <= PLAYER_SPEED,
        -PLAYER_SPEED <= intent_dz(keys) <= PLAYER_SPEED,
        !any_held(keys) ==> intent_dx(keys) == 0 && intent_dz(keys) == 0,
{
}

/// The player's position is the running sum of the intents applied: after a run of
/// ticks it is the start plus the sum of each tick's displacement, as long as the
/// sums stay within `i64` along the way.
pub proof fn lemma_position_is_sum_of_intents(p: Player, ticks: Seq<MoveKeys>)
    requires
        forall|k: int|
            #![trigger ticks.take(k)]
            0 <= k <= ticks.len() ==> {
                &&& i64::MIN <= p.x + sum_dx(ticks.take(k)) <= i64::MAX
                &&& i64::MIN <= p.z + sum_dz(ticks.take(k)) <= i64::MAX
            },
    ensures
        walk(p, ticks).x == p.x + sum_dx(ticks),
        walk(p, ticks).z == p.z + sum_dz(ticks),
    decreases ticks.len(),
{
    if ticks.len() > 0 {
        let prefix = ticks.drop_last();
        assert forall|k: int| 0 <= k <= prefix.len() implies {
            &&& i64::MIN <= p.x + sum_dx(#[trigger] prefix.take(k)) <= i64::MAX
            &&& i64::MIN <= p.z + sum_dz(prefix.take(k)) <= i64::MAX
        } by {
            assert(prefix.take(k) =~= ticks.take(k));
        }
        lemma_position_is_sum_of_intents(p, prefix);
        assert(ticks.take(ticks.len() as int) =~= ticks);
        lemma_intent_bounded(ticks.last());
    }
}

} // verus!
