use escape_room::player::{desk_target, is_keypad_drawer_solved, LightbulbColor, Player};
use escape_room::scene::SceneId;
use escape_room::transition::{SceneState, TransitionEvent};

fn assert_is_default_but_scene(p: &Player) {
    assert_eq!(p.behind_puzzle_state, vec![0; 6]);
    assert_eq!(p.keypad_drawer_puzzle_state, vec![0; 3]);
    assert!(p.lightbulb_unlock.is_none());
    assert!(p.installed_lightbulb.is_none());
    assert!(!p.right_speaker_broken);
    assert!(!p.has_surge_protector);
    assert!(!p.has_installed_surge_protector);
    assert!(!p.has_morse_code_translator);
    assert!(!p.has_installed_morse_code_translator);
    assert!(!p.has_key);
    assert!(!p.opened_key_drawer);
    assert!(p.dialed_numbers.is_empty());
}

#[test]
fn a_new_player_starts_at_the_desk_with_defaults() {
    let p = Player::new();
    assert_eq!(p.scene, SceneState::Active(SceneId::Desk));
    assert_is_default_but_scene(&p);
}

#[test]
fn restart_universe_resets_everything_and_forces_the_desk() {
    let mut p = Player::new();
    // Touch every piece of state first.
    p.scene = SceneState::Active(SceneId::Behind);
    p.advance_behind_slot(0);
    p.advance_behind_slot(5);
    p.advance_keypad_slot(1);
    p.take_key();
    p.unlock_lock_drawer();
    p.take_morse_code_translator();
    p.install_morse_code_translator();
    p.take_surge_protector();
    p.install_surge_protector();
    p.lightbulb_unlock = Some(LightbulbColor::Red);
    p.enter_lamp();
    p.press_phone_digit(4);

    p.restart_universe();
    assert_eq!(
        p.scene,
        SceneState::ForceTransition(SceneId::Behind, SceneId::Desk)
    );
    assert_is_default_but_scene(&p);

    // The next tick turns the forced change into a cross-fade to the Desk.
    let event = p.scene.tick();
    assert_eq!(event, TransitionEvent::Unload(SceneId::Behind));
    assert_eq!(
        p.scene,
        SceneState::Transitioning(SceneId::Behind, SceneId::Desk, 0)
    );
}

#[test]
fn wheels_advance_and_retreat_one_slot_at_a_time() {
    let mut p = Player::new();
    p.advance_behind_slot(2);
    p.advance_behind_slot(2);
    assert_eq!(p.behind_puzzle_state, vec![0, 0, 2, 0, 0, 0]);
    p.advance_keypad_slot(1);
    assert_eq!(p.keypad_drawer_puzzle_state, vec![0, 1, 0]);
    p.retreat_keypad_slot(1);
    p.retreat_keypad_slot(0);
    assert_eq!(p.keypad_drawer_puzzle_state, vec![11, 0, 0]);
}

#[test]
fn keypad_drawer_solves_on_see() {
    let mut p = Player::new();
    assert!(!is_keypad_drawer_solved(&p));
    // 'S' is eight steps from 'A', 'E' is three.
    for _ in 0..8 {
        p.advance_keypad_slot(0);
    }
    for _ in 0..3 {
        p.advance_keypad_slot(1);
        p.advance_keypad_slot(2);
    }
    assert!(is_keypad_drawer_solved(&p));
    // The wheels stay mutable after solving: one more step unsolves.
    p.advance_keypad_slot(2);
    assert!(!is_keypad_drawer_solved(&p));
}

#[test]
fn the_lock_needs_the_key() {
    let mut p = Player::new();
    p.scene = SceneState::Active(SceneId::LockDrawer);
    p.unlock_lock_drawer();
    assert!(!p.opened_key_drawer);
    assert_eq!(p.scene, SceneState::Active(SceneId::LockDrawer));
    p.take_key();
    p.unlock_lock_drawer();
    assert!(p.opened_key_drawer);
    assert_eq!(
        p.scene,
        SceneState::ForceTransition(SceneId::LockDrawer, SceneId::LockDrawerSolved)
    );
}

#[test]
fn installing_the_translator_unprotected_breaks_the_speaker() {
    let mut p = Player::new();
    let destroyed = p.install_morse_code_translator();
    assert!(destroyed);
    assert!(p.right_speaker_broken);
    assert!(p.has_installed_morse_code_translator);
}

#[test]
fn the_surge_protector_saves_the_speaker() {
    let mut p = Player::new();
    p.take_surge_protector();
    p.install_surge_protector();
    let destroyed = p.install_morse_code_translator();
    assert!(!destroyed);
    assert!(!p.right_speaker_broken);
    assert!(p.has_installed_morse_code_translator);
}

#[test]
fn the_lamp_takes_the_unlocked_bulb() {
    let mut p = Player::new();
    p.enter_lamp();
    assert!(p.installed_lightbulb.is_none());
    p.lightbulb_unlock = Some(LightbulbColor::Red);
    p.enter_lamp();
    assert_eq!(p.installed_lightbulb, Some(LightbulbColor::Red));
}

#[test]
fn desk_drawers_lead_to_their_progress_variant() {
    let mut p = Player::new();
    assert_eq!(desk_target(&p, SceneId::LockDrawer), SceneId::LockDrawer);
    assert_eq!(desk_target(&p, SceneId::KeypadDrawer), SceneId::KeypadDrawer);
    assert_eq!(desk_target(&p, SceneId::Radio), SceneId::Radio);

    p.take_key();
    p.unlock_lock_drawer();
    assert_eq!(desk_target(&p, SceneId::LockDrawer), SceneId::LockDrawerSolved);
    p.take_morse_code_translator();
    assert_eq!(desk_target(&p, SceneId::LockDrawer), SceneId::LockDrawerEmpty);

    for _ in 0..8 {
        p.advance_keypad_slot(0);
    }
    for _ in 0..3 {
        p.advance_keypad_slot(1);
        p.advance_keypad_slot(2);
    }
    assert_eq!(
        desk_target(&p, SceneId::KeypadDrawer),
        SceneId::KeypadDrawerSolved
    );
    p.take_surge_protector();
    assert_eq!(
        desk_target(&p, SceneId::KeypadDrawer),
        SceneId::KeypadDrawerEmpty
    );
}

#[test]
fn the_wheels_spell_their_current_characters() {
    let mut p = Player::new();
    assert_eq!(p.behind_word(), vec!['A'; 6]);
    assert_eq!(p.keypad_word(), vec!['A', 'A', 'A']);
    for _ in 0..8 {
        p.advance_keypad_slot(0);
    }
    for _ in 0..3 {
        p.advance_keypad_slot(1);
        p.advance_keypad_slot(2);
    }
    assert_eq!(p.keypad_word(), vec!['S', 'E', 'E']);
    p.advance_behind_slot(3);
    assert_eq!(p.behind_word(), vec!['A', 'A', 'A', 'B', 'A', 'A']);
}

#[test]
fn dialing_through_the_player_reports_the_solve() {
    let mut p = Player::new();
    let mut solved = false;
    for d in [8, 5, 3, 1, 7, 6, 0, 2, 5] {
        solved = p.press_phone_digit(d);
    }
    assert!(solved);
    assert!(!p.press_phone_digit(7));
}
