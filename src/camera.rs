use vstd::prelude::*;

use crate::input::PLAYER_SPEED;
use crate::player::{Player, PlayerState};

verus! {

/// Camera coordinates and distances are kept in thousandths of a world unit.
pub const MILLI_PER_UNIT: i64 = 1000;

/// One player step, in camera units.
pub const FOLLOW_STEP: i64 = PLAYER_SPEED * MILLI_PER_UNIT;

/// Change of the camera's distance from the origin on one zoom tick (10 units).
pub const ZOOM_STEP: i64 = 10_000;

/// Closest the camera may zoom to the origin (140 units).
pub const MIN_DISTANCE: u64 = 140_000;

/// Farthest the camera may zoom from the origin (1050 units).
pub const MAX_DISTANCE: u64 = 1_050_000;

/// Orbit angle per tick, in milliradians (0.02 rad).
pub const ORBIT_STEP: i64 = 20;

/// Height of the camera above the player's z coordinate at spawn (550 units).
pub const SPAWN_HEIGHT: i64 = 550_000;

/// Depth of the camera at spawn (-630 units).
pub const SPAWN_DEPTH: i64 = -630_000;

/// The camera keys sampled on one tick.
#[derive(Clone, Copy, Debug, PartialEq, Eq, Structural)]
pub struct CameraKeys {
    /// Zoom in (W).
    pub zoom_in: bool,
    /// Zoom out (S).
    pub zoom_out: bool,
    /// Orbit counter-clockwise seen from above (A).
    pub orbit_left: bool,
    /// Orbit clockwise seen from above (D).
    pub orbit_right: bool,
}

/// A camera's translation, in thousandths of a world unit.
#[derive(Clone, Copy, Debug, PartialEq, Eq, Structural)]
pub struct CameraPosition {
    pub x: i64,
    pub y: i64,
    pub z: i64,
}

/// What the zoom and orbit keys ask of one camera on one tick.
#[derive(Clone, Copy, Debug, PartialEq, Eq, Structural)]
pub struct CameraMove {
    /// The new distance from the origin along the camera's backward axis, when zooming.
    pub distance: Option<u64>,
    /// The orbit angle about the vertical axis through the pivot `(player.x, 1, player.z)`,
    /// in milliradians; 0 means no orbit and no re-aim.
    pub orbit: i64,
}

pub open spec fn zoom_delta(keys: CameraKeys) -> int {
    (if keys.zoom_out { ZOOM_STEP as int } else { 0 }) - (if keys.zoom_in {
        ZOOM_STEP as int
    } else {
        0
    })
}

pub open spec fn orbit_delta(keys: CameraKeys) -> int {
    (if keys.orbit_left { ORBIT_STEP as int } else { 0 }) - (if keys.orbit_right {
        ORBIT_STEP as int
    } else {
        0
    })
}

pub open spec fn in_zoom_range(d: int) -> bool {
    MIN_DISTANCE <= d <= MAX_DISTANCE
}

pub open spec fn clamp_distance(d: int) -> int {
    if d < MIN_DISTANCE {
        MIN_DISTANCE as int
    } else if d > MAX_DISTANCE {
        MAX_DISTANCE as int
    } else {
        d
    }
}

/// The distance after one tick of camera keys: untouched unless the zoom keys
/// ask for a change, else moved by it and clamped into range.
pub open spec fn zoom_step(d: int, keys: CameraKeys) -> int {
    if zoom_delta(keys) == 0 {
        d
    } else {
        clamp_distance(d + zoom_delta(keys))
    }
}

pub open spec fn camera_move_of(keys: CameraKeys, distance: int) -> CameraMove {
    CameraMove {
        distance: if zoom_delta(keys) == 0 {
            None
        } else {
            Some(clamp_distance(distance + zoom_delta(keys)) as u64)
        },
        orbit: orbit_delta(keys) as i64,
    }
}

impl CameraKeys {
    /// No key held.
    pub fn none() -> (r: CameraKeys)
        ensures
            !r.zoom_in && !r.zoom_out && !r.orbit_left && !r.orbit_right,
    {
        CameraKeys { zoom_in: false, zoom_out: false, orbit_left: false, orbit_right: false }
    }
}

impl CameraMove {
    pub open spec fn is_still(self) -> bool {
        self.distance is None && self.orbit == 0
    }
}

/// Moves `distance` by `delta` and clamps the result into the zoom range.
pub fn zoomed_distance(distance: u64, delta: i64) -> (r: u64)
    requires
        -ZOOM_STEP <= delta <= ZOOM_STEP,
    ensures
        r as int == clamp_distance(distance + delta),
{
    if delta < 0 {
        let down = (-delta) as u64;
        if distance < MIN_DISTANCE + down {
            MIN_DISTANCE
        } else if distance - down > MAX_DISTANCE {
            MAX_DISTANCE
        } else {
            distance - down
        }
    } else {
        let up = delta as u64;
        if distance > MAX_DISTANCE - up {
            MAX_DISTANCE
        } else if distance + up < MIN_DISTANCE {
            MIN_DISTANCE
        } else {
            distance + up
        }
    }
}

/// Reads the zoom and orbit keys for a camera now `distance` from the origin.
/// Zoom and orbit are independent; with neither asked for the camera stays still.
pub fn move_camera(keys: CameraKeys, distance: u64) -> (r: CameraMove)
    ensures
        r == camera_move_of(keys, distance as int),
        r.distance matches Some(d) ==> in_zoom_range(d as int) && d == zoom_step(
            distance as int,
            keys,
        ),
        r.distance is None ==> zoom_step(distance as int, keys) == distance,
        !keys.zoom_in && !keys.zoom_out && !keys.orbit_left && !keys.orbit_right ==> r.is_still(),
{
    let mut distance_delta: i64 = 0;
    let mut orbit: i64 = 0;
    if keys.zoom_in {
        distance_delta = distance_delta - ZOOM_STEP;
    }
    if keys.zoom_out {
        distance_delta = distance_delta + ZOOM_STEP;
    }
    if keys.orbit_left {
        orbit = orbit + ORBIT_STEP;
    }
    if keys.orbit_right {
        orbit = orbit - ORBIT_STEP;
    }
    let new_distance = if distance_delta != 0 {
        Some(zoomed_distance(distance, distance_delta))
    } else {
        None
    };
    CameraMove { distance: new_distance, orbit }
}

/// The distance after a run of ticks of camera keys.
pub open spec fn zoom_walk(d: int, ticks: Seq<CameraKeys>) -> int
    decreases ticks.len(),
{
    if ticks.len() == 0 {
        d
    } else {
        zoom_step(zoom_walk(d, ticks.drop_last()), ticks.last())
    }
}

/// The camera's distance never leaves the zoom range, however many zoom ticks
/// of either direction follow one another.
pub proof fn lemma_zoom_stays_in_range(d: int, ticks: Seq<CameraKeys>)
    requires
        in_zoom_range(d),
    ensures
        in_zoom_range(zoom_walk(d, ticks)),
    decreases ticks.len(),
{
    if ticks.len() > 0 {
        lemma_zoom_stays_in_range(d, ticks.drop_last());
    }
}

/// The camera's translation in milli-units, shifted on the ground plane by a
/// displacement in world units.
pub open spec fn shifted(c: CameraPosition, dx: int, dz: int) -> CameraPosition {
    CameraPosition {
        x: (c.x + dx * MILLI_PER_UNIT) as i64,
        y: c.y,
        z: (c.z + dz * MILLI_PER_UNIT) as i64,
    }
}

pub open spec fn can_shift(c: CameraPosition, dx: int, dz: int) -> bool {
    &&& i64::MIN <= dx * MILLI_PER_UNIT <= i64::MAX
    &&& i64::MIN <= dz * MILLI_PER_UNIT <= i64::MAX
    &&& i64::MIN <= c.x + dx * MILLI_PER_UNIT <= i64::MAX
    &&& i64::MIN <= c.z + dz * MILLI_PER_UNIT <= i64::MAX
}

/// A camera after following the signal `state`.
pub open spec fn followed(c: CameraPosition, state: PlayerState) -> CameraPosition {
    match state {
        PlayerState::Running { dx, dz } => shifted(c, dx as int, dz as int),
        PlayerState::Idle => c,
    }
}

pub open spec fn can_follow(c: CameraPosition, state: PlayerState) -> bool {
    match state {
        PlayerState::Running { dx, dz } => can_shift(c, dx as int, dz as int),
        PlayerState::Idle => true,
    }
}

/// Translates every camera by the player's pending displacement, x and z only, and
/// drains the signal back to idle. Each camera follows exactly once however many
/// there are, and the signal is drained once.
pub fn follow_player(cameras: &mut Vec<CameraPosition>, player: &mut Player)
    requires
        forall|i: int|
            0 <= i < old(cameras)@.len() ==> can_follow(#[trigger] old(cameras)@[i], old(player).state),
    ensures
        final(cameras)@.len() == old(cameras)@.len(),
        forall|i: int|
            0 <= i < final(cameras)@.len() ==> #[trigger] final(cameras)@[i] == followed(
                old(cameras)@[i],
                old(player).state,
            ),
        final(player).x == old(player).x,
        final(player).z == old(player).z,
        final(player).state == PlayerState::Idle,
{
    if let PlayerState::Running { dx, dz } = player.state {
        let n = cameras.len();
        let mut i: usize = 0;
        while i < n
            invariant
                n == cameras@.len(),
                cameras@.len() == old(cameras)@.len(),
                0 <= i <= n,
                old(player).state == (PlayerState::Running { dx, dz }),
                forall|j: int|
                    0 <= j < n ==> can_follow(#[trigger] old(cameras)@[j], old(player).state),
                forall|j: int| 0 <= j < i ==> #[trigger] cameras@[j] == followed(old(cameras)@[j], old(player).state),
                forall|j: int| i <= j < n ==> #[trigger] cameras@[j] == old(cameras)@[j],
            decreases n - i,
        {
            let c = cameras[i];
            assert(can_follow(old(cameras)@[i as int], old(player).state));
            let moved = CameraPosition {
                x: c.x + dx * MILLI_PER_UNIT,
                y: c.y,
                z: c.z + dz * MILLI_PER_UNIT,
            };
            cameras.set(i, moved);
            i = i + 1;
        }
    }
    player.state = PlayerState::Idle;
}

/// The camera's translation at startup: `(x, z + 550, -630)` world units for the
/// player at `(x, z)`, before it is aimed at the origin.
pub fn spawn_camera(player: &Player) -> (r: CameraPosition)
    requires
        i64::MIN <= player.x * MILLI_PER_UNIT <= i64::MAX,
        i64::MIN <= player.z * MILLI_PER_UNIT <= i64::MAX,
        i64::MIN <= player.z * MILLI_PER_UNIT + SPAWN_HEIGHT <= i64::MAX,
    ensures
        r.x == player.x * MILLI_PER_UNIT,
        r.y == player.z * MILLI_PER_UNIT + SPAWN_HEIGHT,
        r.z == SPAWN_DEPTH,
{
    CameraPosition {
        x: player.x * MILLI_PER_UNIT,
        y: player.z * MILLI_PER_UNIT + SPAWN_HEIGHT,
        z: SPAWN_DEPTH,
    }
}

} // verus!
