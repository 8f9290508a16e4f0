use animated_fox::camera::{follow_player, CameraPosition};
use animated_fox::input::{translate_input, Facing, MoveKeys};
use animated_fox::player::{move_player, Player, PlayerState, Pose};
use animated_fox::session::Session;

fn keys(forward: bool, backward: bool, right: bool, left: bool) -> MoveKeys {
    MoveKeys { forward, backward, right, left }
}

#[test]
fn intent_sums_plus_x_and_plus_z() {
    let i = translate_input(keys(true, false, true, false));
    assert_eq!((i.dx, i.dz), (10, 10));
    assert!(i.moved());
}

#[test]
fn intent_opposite_keys_cancel() {
    let i = translate_input(keys(true, true, true, true));
    assert_eq!((i.dx, i.dz), (0, 0));
    assert!(i.moved());
    assert_eq!(i.facing, Some(Facing::Left));
}

#[test]
fn intent_single_keys() {
    assert_eq!(translate_input(keys(true, false, false, false)).dz, 10);
    assert_eq!(translate_input(keys(false, true, false, false)).dz, -10);
    assert_eq!(translate_input(keys(false, false, true, false)).dx, 10);
    assert_eq!(translate_input(keys(false, false, false, true)).dx, -10);
}

#[test]
fn intent_without_keys_is_zero() {
    let i = translate_input(MoveKeys::none());
    assert_eq!((i.dx, i.dz), (0, 0));
    assert_eq!(i.facing, None);
    assert!(!i.moved());
}

#[test]
fn facing_of_single_keys() {
    let plus_x = translate_input(keys(false, false, true, false)).facing.unwrap();
    let minus_x = translate_input(keys(false, false, false, true)).facing.unwrap();
    let plus_z = translate_input(keys(true, false, false, false)).facing.unwrap();
    let minus_z = translate_input(keys(false, true, false, false)).facing.unwrap();
    assert_eq!(plus_x, Facing::Right);
    assert_eq!(plus_x.quarter_turns(), 1);
    assert_eq!(minus_x, Facing::Left);
    assert_eq!(minus_x.quarter_turns(), -1);
    assert_eq!(plus_z, Facing::Forward);
    assert_eq!(plus_z.quarter_turns(), 0);
    assert_eq!(minus_z, Facing::Backward);
    assert_eq!(minus_z.quarter_turns(), 2);
}

#[test]
fn facing_last_evaluated_key_wins() {
    assert_eq!(translate_input(keys(true, true, false, false)).facing, Some(Facing::Backward));
    assert_eq!(translate_input(keys(true, false, true, false)).facing, Some(Facing::Right));
    assert_eq!(translate_input(keys(false, true, true, true)).facing, Some(Facing::Left));
}

#[test]
fn position_is_running_sum() {
    let mut p = Player::new();
    let first = move_player(&mut p, keys(false, false, true, false));
    assert_eq!(first, Some(Pose { x: 10, z: 0, facing: Facing::Right }));
    assert_eq!(p.state, PlayerState::Running { dx: 10, dz: 0 });
    p.state = PlayerState::Idle;
    let second = move_player(&mut p, keys(true, false, false, false));
    assert_eq!(second, Some(Pose { x: 10, z: 10, facing: Facing::Forward }));
    assert_eq!((p.x, p.z), (10, 10));
}

#[test]
fn move_by_vector_adds() {
    let mut p = Player::new();
    p.move_by_vector(-30, 7);
    assert_eq!((p.x, p.z), (-30, 7));
    assert_eq!(p.state, PlayerState::Idle);
}

#[test]
fn no_keys_leaves_player_untouched() {
    let mut p = Player { x: 40, z: -20, state: PlayerState::Idle };
    assert_eq!(move_player(&mut p, MoveKeys::none()), None);
    assert_eq!(p, Player { x: 40, z: -20, state: PlayerState::Idle });
}

#[test]
fn follow_shifts_every_camera_once_and_drains() {
    let mut p = Player { x: 10, z: 0, state: PlayerState::Running { dx: 10, dz: -10 } };
    let mut cams = vec![
        CameraPosition { x: 0, y: 550_000, z: -630_000 },
        CameraPosition { x: 5, y: 6, z: 7 },
    ];
    follow_player(&mut cams, &mut p);
    assert_eq!(cams[0], CameraPosition { x: 10_000, y: 550_000, z: -640_000 });
    assert_eq!(cams[1], CameraPosition { x: 10_005, y: 6, z: -9_993 });
    assert_eq!(p.state, PlayerState::Idle);
    assert_eq!((p.x, p.z), (10, 0));
}

#[test]
fn follow_when_idle_changes_nothing() {
    let mut p = Player::new();
    let mut cams = vec![CameraPosition { x: 1, y: 2, z: 3 }];
    follow_player(&mut cams, &mut p);
    assert_eq!(cams[0], CameraPosition { x: 1, y: 2, z: 3 });
}

#[test]
fn session_tick_moves_cameras_with_player() {
    let mut s = Session::new();
    assert_eq!(s.cameras[0], CameraPosition { x: 0, y: 550_000, z: -630_000 });
    let pose = s.tick(keys(false, true, false, true));
    assert_eq!(pose, Some(Pose { x: -10, z: -10, facing: Facing::Left }));
    assert_eq!(s.cameras[0], CameraPosition { x: -10_000, y: 550_000, z: -640_000 });
    assert_eq!(s.player, Player { x: -10, z: -10, state: PlayerState::Idle });
}

#[test]
fn session_idle_tick_changes_nothing() {
    let mut s = Session::new();
    s.tick(keys(true, false, false, false));
    let player = s.player;
    let cams = s.cameras.clone();
    assert_eq!(s.tick(MoveKeys::none()), None);
    assert_eq!(s.player, player);
    assert_eq!(s.cameras, cams);
}
