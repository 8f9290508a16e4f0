use vstd::prelude::*;

use crate::camera::{
    camera_move_of, can_follow, follow_player, spawn_camera, CameraKeys, CameraPosition,
    FOLLOW_STEP, MILLI_PER_UNIT, SPAWN_DEPTH, SPAWN_HEIGHT,
};
use crate::input::{any_held, intent_dx, intent_dz, MoveKeys};
use crate::player::{lemma_intent_bounded, move_player, pose_of, step, Player, PlayerState, Pose};

verus! {

/// The player and the cameras that follow it, between ticks.
pub struct Session {
    pub player: Player,
    pub cameras: Vec<CameraPosition>,
}

/// A camera coordinate with room for one follow step either way.
pub open spec fn fits_follow(v: int) -> bool {
    i64::MIN + FOLLOW_STEP <= v <= i64::MAX - FOLLOW_STEP
}

pub open spec fn camera_can_follow(c: CameraPosition) -> bool {
    fits_follow(c.x as int) && fits_follow(c.z as int)
}

/// A camera after the follow step of a tick on `keys`.
pub open spec fn camera_after(c: CameraPosition, keys: MoveKeys) -> CameraPosition {
    CameraPosition {
        x: (c.x + intent_dx(keys) * MILLI_PER_UNIT) as i64,
        y: c.y,
        z: (c.z + intent_dz(keys) * MILLI_PER_UNIT) as i64,
    }
}

/// The player after a whole tick on `keys`: moved, and the signal drained.
pub open spec fn player_after(p: Player, keys: MoveKeys) -> Player {
    Player { x: step(p, keys).x, z: step(p, keys).z, state: PlayerState::Idle }
}

impl Session {
    /// Between ticks no displacement is pending.
    pub open spec fn wf(&self) -> bool {
        self.player.state == PlayerState::Idle
    }

    /// Every coordinate has room for one more tick.
    pub open spec fn has_room(&self) -> bool {
        &&& self.player.can_step()
        &&& forall|i: int|
            0 <= i < self.cameras@.len() ==> camera_can_follow(#[trigger] self.cameras@[i])
    }

    /// The player at the origin with one camera placed for it.
    pub fn new() -> (r: Session)
        ensures
            r.wf(),
            r.player == (Player { x: 0, z: 0, state: PlayerState::Idle }),
            r.cameras@ == seq![CameraPosition { x: 0, y: SPAWN_HEIGHT, z: SPAWN_DEPTH }],
    {
        let player = Player::new();
        let camera = spawn_camera(&player);
        let mut cameras: Vec<CameraPosition> = Vec::new();
        cameras.push(camera);
        Session { player, cameras }
    }

    /// Runs the motion step and then the follow step for one tick of direction keys.
    /// The player moves by the intent; every camera's x and z move by the same
    /// displacement; the signal between them is drained before the tick ends. The
    /// character's new pose is returned when a key is held.
    pub fn tick(&mut self, keys: MoveKeys) -> (r: Option<Pose>)
        requires
            old(self).wf(),
            old(self).has_room(),
        ensures
            final(self).wf(),
            final(self).player == player_after(old(self).player, keys),
            final(self).cameras@.len() == old(self).cameras@.len(),
            forall|i: int|
                0 <= i < final(self).cameras@.len() ==> #[trigger] final(self).cameras@[i]
                    == camera_after(old(self).cameras@[i], keys),
            r == pose_of(old(self).player, keys),
    {
        let ghost cams0 = self.cameras@;
        let r = move_player(&mut self.player, keys);
        assert forall|i: int| 0 <= i < self.cameras@.len() implies can_follow(
            #[trigger] self.cameras@[i],
            self.player.state,
        ) by {
            assert(camera_can_follow(cams0[i]));
        }
        follow_player(&mut self.cameras, &mut self.player);
        assert forall|i: int| 0 <= i < self.cameras@.len() implies #[trigger] self.cameras@[i]
            == camera_after(cams0[i], keys) by {
            if !any_held(keys) {
                assert(intent_dx(keys) == 0 && intent_dz(keys) == 0);
                assert(cams0[i] == camera_after(cams0[i], keys));
            }
        }
        r
    }
}

/// A tick with no key held changes nothing: the player's position and state and
/// every camera stay as they were, and the zoom and orbit step leaves the cameras still.
pub proof fn lemma_idle_tick_changes_nothing(
    player: Player,
    cameras: Seq<CameraPosition>,
    keys: MoveKeys,
    camera_keys: CameraKeys,
    distance: int,
)
    requires
        player.state == PlayerState::Idle,
        !any_held(keys),
        !camera_keys.zoom_in && !camera_keys.zoom_out && !camera_keys.orbit_left
            && !camera_keys.orbit_right,
    ensures
        player_after(player, keys) == player,
        forall|i: int| 0 <= i < cameras.len() ==> #[trigger] camera_after(cameras[i], keys) == cameras[i],
        camera_move_of(camera_keys, distance).is_still(),
{
}

/// After a tick on which the player moves by `(dx, dz)`, each camera's x and z have
/// grown by exactly that displacement, its height is kept, and the player is idle
/// again before the next tick.
pub proof fn lemma_cameras_follow_displacement(player: Player, c: CameraPosition, keys: MoveKeys)
    requires
        player.can_step(),
        camera_can_follow(c),
    ensures
        camera_after(c, keys).x - c.x == (player_after(player, keys).x - player.x)
            * MILLI_PER_UNIT,
        camera_after(c, keys).z - c.z == (player_after(player, keys).z - player.z)
            * MILLI_PER_UNIT,
        camera_after(c, keys).y == c.y,
        player_after(player, keys).state == PlayerState::Idle,
{
    lemma_intent_bounded(keys);
}

} // verus!
