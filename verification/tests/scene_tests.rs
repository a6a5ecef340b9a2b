use escape_room::scene::{SceneId, ScenePlayerControl};

const RING: [SceneId; 4] = [
    SceneId::Desk,
    SceneId::Door,
    SceneId::Behind,
    SceneId::BulletinBoard,
];

const SPOKES: [SceneId; 10] = [
    SceneId::Radio,
    SceneId::Tv,
    SceneId::Lamp,
    SceneId::KeypadDrawer,
    SceneId::KeypadDrawerSolved,
    SceneId::KeypadDrawerEmpty,
    SceneId::LockDrawer,
    SceneId::LockDrawerSolved,
    SceneId::LockDrawerEmpty,
    SceneId::Phone,
];

#[test]
fn ring_left_then_right_round_trips() {
    for s in RING {
        let left = s
            .next_scene(ScenePlayerControl::TransitionSceneLeft)
            .unwrap();
        let back = left
            .next_scene(ScenePlayerControl::TransitionSceneRight)
            .unwrap();
        assert_eq!(back, s);
    }
}

#[test]
fn ring_right_then_left_round_trips() {
    for s in RING {
        let right = s
            .next_scene(ScenePlayerControl::TransitionSceneRight)
            .unwrap();
        let back = right
            .next_scene(ScenePlayerControl::TransitionSceneLeft)
            .unwrap();
        assert_eq!(back, s);
    }
}

#[test]
fn ring_adjacency_from_desk() {
    assert_eq!(
        SceneId::Desk.next_scene(ScenePlayerControl::TransitionSceneLeft),
        Some(SceneId::BulletinBoard)
    );
    assert_eq!(
        SceneId::Desk.next_scene(ScenePlayerControl::TransitionSceneRight),
        Some(SceneId::Door)
    );
    assert_eq!(
        SceneId::Desk.next_scene(ScenePlayerControl::TransitionSceneBehind),
        Some(SceneId::Behind)
    );
}

#[test]
fn ring_behind_is_an_involution() {
    for s in RING {
        let behind = s
            .next_scene(ScenePlayerControl::TransitionSceneBehind)
            .unwrap();
        let back = behind
            .next_scene(ScenePlayerControl::TransitionSceneBehind)
            .unwrap();
        assert_eq!(back, s);
    }
}

#[test]
fn spokes_escape_to_desk_only_via_behind() {
    for s in SPOKES {
        assert_eq!(
            s.next_scene(ScenePlayerControl::TransitionSceneBehind),
            Some(SceneId::Desk)
        );
        assert_eq!(s.next_scene(ScenePlayerControl::TransitionSceneLeft), None);
        assert_eq!(s.next_scene(ScenePlayerControl::TransitionSceneRight), None);
    }
}

#[test]
fn asset_paths_name_each_scene() {
    assert_eq!(SceneId::Desk.asset_path(), "images/scenes/desk.png");
    assert_eq!(SceneId::Radio.asset_path(), "images/scenes/radio.png");
    assert_eq!(
        SceneId::Behind.asset_path(),
        "images/scenes/restart_universe_button.png"
    );
    assert_eq!(
        SceneId::KeypadDrawerEmpty.asset_path(),
        "images/scenes/inside_drawer_1_empty.png"
    );
    assert_eq!(
        SceneId::LockDrawerSolved.asset_path(),
        "images/scenes/inside_drawer_2.png"
    );
}
