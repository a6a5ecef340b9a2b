use escape_room::scene::{SceneId, ScenePlayerControl};
use escape_room::transition::{SceneState, TransitionEvent, TICKS_PER_TRANSITION};

#[test]
fn request_transition_starts_a_cross_fade() {
    let mut state = SceneState::Active(SceneId::Desk);
    let unload = state.request_transition(SceneId::Radio);
    assert_eq!(unload, Some(SceneId::Desk));
    assert_eq!(
        state,
        SceneState::Transitioning(SceneId::Desk, SceneId::Radio, 0)
    );
}

#[test]
fn request_transition_while_transitioning_is_a_no_op() {
    let mut state = SceneState::Active(SceneId::Desk);
    state.request_transition(SceneId::Radio);
    let before = state;
    let unload = state.request_transition(SceneId::Tv);
    assert_eq!(unload, None);
    assert_eq!(state, before);
}

#[test]
fn self_transition_is_a_no_op() {
    let mut state = SceneState::Active(SceneId::Desk);
    let unload = state.request_transition(SceneId::Desk);
    assert_eq!(unload, None);
    assert_eq!(state, SceneState::Active(SceneId::Desk));
}

#[test]
fn fifteen_ticks_complete_a_transition() {
    let mut state = SceneState::Active(SceneId::Desk);
    state.request_transition(SceneId::Radio);
    for tick in 0..TICKS_PER_TRANSITION {
        assert!(!matches!(state, SceneState::Active(_)), "active after {tick} ticks");
        let event = state.tick();
        if tick + 1 == TICKS_PER_TRANSITION {
            assert_eq!(event, TransitionEvent::Load(SceneId::Radio));
        } else {
            assert_eq!(event, TransitionEvent::Idle);
        }
    }
    assert_eq!(state, SceneState::Active(SceneId::Radio));
}

#[test]
fn tick_on_active_does_nothing() {
    let mut state = SceneState::Active(SceneId::Phone);
    let event = state.tick();
    assert_eq!(event, TransitionEvent::Idle);
    assert_eq!(state, SceneState::Active(SceneId::Phone));
}

#[test]
fn force_transition_overrides_and_unloads_on_next_tick() {
    let mut state = SceneState::Active(SceneId::LockDrawer);
    state.force_transition(SceneId::LockDrawer, SceneId::LockDrawerSolved);
    assert_eq!(
        state,
        SceneState::ForceTransition(SceneId::LockDrawer, SceneId::LockDrawerSolved)
    );
    let event = state.tick();
    assert_eq!(event, TransitionEvent::Unload(SceneId::LockDrawer));
    assert_eq!(
        state,
        SceneState::Transitioning(SceneId::LockDrawer, SceneId::LockDrawerSolved, 0)
    );
}

#[test]
fn ring_move_starts_the_right_transition() {
    let mut state = SceneState::Active(SceneId::Desk);
    let unload = state.request_ring_move(ScenePlayerControl::TransitionSceneLeft);
    assert_eq!(unload, Some(SceneId::Desk));
    assert_eq!(
        state,
        SceneState::Transitioning(SceneId::Desk, SceneId::BulletinBoard, 0)
    );
}

#[test]
fn ring_move_is_ignored_while_transitioning() {
    let mut state = SceneState::Transitioning(SceneId::Desk, SceneId::Door, 3);
    let unload = state.request_ring_move(ScenePlayerControl::TransitionSceneLeft);
    assert_eq!(unload, None);
    assert_eq!(state, SceneState::Transitioning(SceneId::Desk, SceneId::Door, 3));
}

#[test]
fn fade_alphas_move_opacity_across_the_fade() {
    let active = SceneState::Active(SceneId::Desk);
    assert_eq!(active.fade_alphas(), (TICKS_PER_TRANSITION, 0));
    let mid = SceneState::Transitioning(SceneId::Desk, SceneId::Door, 6);
    let (prev, next) = mid.fade_alphas();
    assert_eq!((prev, next), (9, 6));
    assert_eq!(prev + next, TICKS_PER_TRANSITION);
}
