use vstd::prelude::*;

verus! {

/// World units the player covers in one tick along an axis.
pub const PLAYER_SPEED: i64 = 10;

/// The four direction keys sampled on one tick.
#[derive(Clone, Copy, Debug, PartialEq, Eq, Structural)]
pub struct MoveKeys {
    /// Held key that walks toward +z (T).
    pub forward: bool,
    /// Held key that walks toward -z (G).
    pub backward: bool,
    /// Held key that walks toward +x (F).
    pub right: bool,
    /// Held key that walks toward -x (H).
    pub left: bool,
}

/// The direction the character faces, one of four quarter turns about the vertical axis.
#[derive(Clone, Copy, Debug, PartialEq, Eq, Structural)]
pub enum Facing {
    /// Angle 0, looking along +z.
    Forward,
    /// Angle pi, looking along -z.
    Backward,
    /// Angle pi/2, looking along +x.
    Right,
    /// Angle -pi/2, looking along -x.
    Left,
}

/// What one tick of input asks of the player.
#[derive(Clone, Copy, Debug, PartialEq, Eq, Structural)]
pub struct Intent {
    pub dx: i64,
    pub dz: i64,
    /// `Some` exactly when at least one direction key is held.
    pub facing: Option<Facing>,
}

/// The share one key contributes along its axis.
pub open spec fn key_share(held: bool) -> int {
    if held {
        PLAYER_SPEED as int
    } else {
        0
    }
}

pub open spec fn intent_dx(keys: MoveKeys) -> int {
    key_share(keys.right) - key_share(keys.left)
}

pub open spec fn intent_dz(keys: MoveKeys) -> int {
    key_share(keys.forward) - key_share(keys.backward)
}

pub open spec fn any_held(keys: MoveKeys) -> bool {
    keys.forward || keys.backward || keys.right || keys.left
}

/// Keys are evaluated forward, backward, right, left; the last one held decides.
pub open spec fn facing_of(keys: MoveKeys) -> Option<Facing> {
    if keys.left {
        Some(Facing::Left)
    } else if keys.right {
        Some(Facing::Right)
    } else if keys.backward {
        Some(Facing::Backward)
    } else if keys.forward {
        Some(Facing::Forward)
    } else {
        None
    }
}

impl MoveKeys {
    /// No key held.
    pub fn none() -> (r: MoveKeys)
        ensures
            !any_held(r),
    {
        MoveKeys { forward: false, backward: false, right: false, left: false }
    }
}

impl Facing {
    /// The angle in quarter turns: the rotation about the vertical axis is this times pi/2.
    pub open spec fn turns(self) -> int {
        match self {
            Facing::Forward => 0,
            Facing::Backward => 2,
            Facing::Right => 1,
            Facing::Left => -1,
        }
    }

    pub fn quarter_turns(&self) -> (r: i8)
        ensures
            r as int == self.turns(),
    {
        match self {
            Facing::Forward => 0,
            Facing::Backward => 2,
            Facing::Right => 1,
            Facing::Left => -1,
        }
    }
}

impl Intent {
    pub open spec fn moved_spec(self) -> bool {
        self.facing is Some
    }

    pub fn moved(&self) -> (r: bool)
        ensures
            r == self.moved_spec(),
    {
        self.facing.is_some()
    }
}

/// Maps the held direction keys to a planar displacement and a facing.
pub fn translate_input(keys: MoveKeys) -> (r: Intent)
    ensures
        r.dx as int == intent_dx(keys),
        r.dz as int == intent_dz(keys),
        r.facing == facing_of(keys),
        r.moved_spec() == any_held(keys),
{
    let mut dx: i64 = 0;
    let mut dz: i64 = 0;
    let mut facing: Option<Facing> = None;
    if keys.forward {
        dz = dz + PLAYER_SPEED;
        facing = Some(Facing::Forward);
    }
    if keys.backward {
        dz = dz - PLAYER_SPEED;
        facing = Some(Facing::Backward);
    }
    if keys.right {
        dx = dx + PLAYER_SPEED;
        facing = Some(Facing::Right);
    }
    if keys.left {
        dx = dx - PLAYER_SPEED;
        facing = Some(Facing::Left);
    }
    Intent { dx, dz, facing }
}

} // verus!
