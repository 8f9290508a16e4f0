use animated_fox::camera::{move_camera, spawn_camera, zoomed_distance, CameraKeys, CameraMove, CameraPosition};
use animated_fox::player::{Player, PlayerState};

fn ck(zoom_in: bool, zoom_out: bool, orbit_left: bool, orbit_right: bool) -> CameraKeys {
    CameraKeys { zoom_in, zoom_out, orbit_left, orbit_right }
}

#[test]
fn zoom_in_moves_ten_units_closer() {
    let m = move_camera(ck(true, false, false, false), 836_000);
    assert_eq!(m, CameraMove { distance: Some(826_000), orbit: 0 });
}

#[test]
fn zoom_out_moves_ten_units_away() {
    assert_eq!(move_camera(ck(false, true, false, false), 836_000).distance, Some(846_000));
}

#[test]
fn zoom_clamps_at_both_ends() {
    assert_eq!(zoomed_distance(145_000, -10_000), 140_000);
    assert_eq!(zoomed_distance(1_045_000, 10_000), 1_050_000);
    assert_eq!(zoomed_distance(5_000, -10_000), 140_000);
    assert_eq!(zoomed_distance(u64::MAX, 10_000), 1_050_000);
    assert_eq!(zoomed_distance(2_000_000, -10_000), 1_050_000);
    assert_eq!(zoomed_distance(0, 10_000), 140_000);
}

#[test]
fn many_zoom_ticks_stay_in_range() {
    let mut d: u64 = 836_000;
    for _ in 0..500 {
        d = move_camera(ck(true, false, false, false), d).distance.unwrap();
        assert!((140_000..=1_050_000).contains(&d));
    }
    assert_eq!(d, 140_000);
    for _ in 0..500 {
        d = move_camera(ck(false, true, false, false), d).distance.unwrap();
        assert!((140_000..=1_050_000).contains(&d));
    }
    assert_eq!(d, 1_050_000);
}

#[test]
fn orbit_keys_turn_two_hundredths_of_a_radian() {
    assert_eq!(move_camera(ck(false, false, true, false), 500_000).orbit, 20);
    assert_eq!(move_camera(ck(false, false, false, true), 500_000).orbit, -20);
    assert_eq!(move_camera(ck(false, false, true, true), 500_000).orbit, 0);
}

#[test]
fn zoom_and_orbit_apply_together() {
    let m = move_camera(ck(false, true, false, true), 500_000);
    assert_eq!(m, CameraMove { distance: Some(510_000), orbit: -20 });
}

#[test]
fn opposite_zoom_keys_do_not_zoom() {
    assert_eq!(move_camera(ck(true, true, false, false), 500_000).distance, None);
}

#[test]
fn no_camera_keys_keep_camera_still() {
    assert_eq!(move_camera(CameraKeys::none(), 2_000_000), CameraMove { distance: None, orbit: 0 });
}

#[test]
fn spawn_places_camera_above_and_behind() {
    let p = Player { x: 3, z: 4, state: PlayerState::Idle };
    assert_eq!(spawn_camera(&p), CameraPosition { x: 3_000, y: 554_000, z: -630_000 });
}
