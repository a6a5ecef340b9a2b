//! The single player-state aggregate: the current scene-transition state, the
//! two wheel-puzzle progress arrays, the dialed-digit history and the
//! narrative flags, together with every mutation the scene handlers perform
//! on it.
//!
//! The aggregate is created once with all-zero defaults and reset to them
//! (with the scene forced back to the Desk) by the restart-universe action.

use vstd::prelude::*;

use crate::puzzle;
use crate::puzzle::{
    spec_advance_index, spec_dial_solved, spec_keypad_solved, spec_press_digit,
    spec_retreat_index, DIAL_HISTORY_LIMIT, NUM_PUZZLE_CHARACTERS,
};
use crate::scene::SceneId;
use crate::transition::SceneState;

verus! {

/// Number of wheel slots in the six-slot puzzle behind the bulletin ring.
pub const BEHIND_PUZZLE_SLOTS: usize = 6;

/// Number of wheel slots on the keypad drawer.
pub const KEYPAD_PUZZLE_SLOTS: usize = 3;

/// Colour of the lightbulb the lamp can hold.
#[derive(Clone, Copy, Debug, PartialEq, Eq, Structural)]
pub enum LightbulbColor {
    Green,
    Red,
}

/// The central mutable aggregate: what is on screen, how far each puzzle has
/// come, and every narrative flag.
#[derive(Debug)]
pub struct Player {
    pub scene: SceneState,
    pub behind_puzzle_state: Vec<usize>,
    pub keypad_drawer_puzzle_state: Vec<usize>,
    pub lightbulb_unlock: Option<LightbulbColor>,
    pub installed_lightbulb: Option<LightbulbColor>,
    pub right_speaker_broken: bool,
    pub has_surge_protector: bool,
    pub has_installed_surge_protector: bool,
    pub has_morse_code_translator: bool,
    pub has_installed_morse_code_translator: bool,
    pub has_key: bool,
    pub opened_key_drawer: bool,
    pub dialed_numbers: Vec<usize>,
}

/// All-default fields: both puzzles at their first character, no digits
/// dialed, every narrative flag cleared, and the given scene state.
pub open spec fn spec_is_reset(p: Player, scene: SceneState) -> bool {
    &&& p.scene == scene
    &&& p.behind_puzzle_state@ == seq![0usize, 0usize, 0usize, 0usize, 0usize, 0usize]
    &&& p.keypad_drawer_puzzle_state@ == seq![0usize, 0usize, 0usize]
    &&& p.lightbulb_unlock is None
    &&& p.installed_lightbulb is None
    &&& !p.right_speaker_broken
    &&& !p.has_surge_protector
    &&& !p.has_installed_surge_protector
    &&& !p.has_morse_code_translator
    &&& !p.has_installed_morse_code_translator
    &&& !p.has_key
    &&& !p.opened_key_drawer
    &&& p.dialed_numbers@ == Seq::<usize>::empty()
}

impl Player {
    /// The scene state is well formed, each puzzle array has its fixed length
    /// with every slot inside the alphabet, and the dial history stays within
    /// its window.
    pub open spec fn wf(self) -> bool {
        &&& self.scene.wf()
        &&& self.behind_puzzle_state@.len() == BEHIND_PUZZLE_SLOTS
        &&& (forall|i: int|
            0 <= i < BEHIND_PUZZLE_SLOTS ==> self.behind_puzzle_state@[i]
                < NUM_PUZZLE_CHARACTERS)
        &&& self.keypad_drawer_puzzle_state@.len() == KEYPAD_PUZZLE_SLOTS
        &&& (forall|i: int|
            0 <= i < KEYPAD_PUZZLE_SLOTS ==> self.keypad_drawer_puzzle_state@[i]
                < NUM_PUZZLE_CHARACTERS)
        &&& self.dialed_numbers@.len() <= DIAL_HISTORY_LIMIT
    }

    /// A fresh player: Desk active, both puzzles at their first character,
    /// nothing dialed, every flag cleared.
    pub fn new() -> (r: Player)
        ensures
            r.wf(),
            spec_is_reset(r, SceneState::Active(SceneId::Desk)),
    {
        let mut behind: Vec<usize> = Vec::new();
        let mut keypad: Vec<usize> = Vec::new();
        let mut i: usize = 0;
        while i < BEHIND_PUZZLE_SLOTS
            invariant
                i <= BEHIND_PUZZLE_SLOTS,
                behind@ =~= Seq::new(i as nat, |j: int| 0usize),
            decreases BEHIND_PUZZLE_SLOTS - i,
        {
            behind.push(0);
            i += 1;
        }
        let mut k: usize = 0;
        while k < KEYPAD_PUZZLE_SLOTS
            invariant
                k <= KEYPAD_PUZZLE_SLOTS,
                keypad@ =~= Seq::new(k as nat, |j: int| 0usize),
            decreases KEYPAD_PUZZLE_SLOTS - k,
        {
            keypad.push(0);
            k += 1;
        }
        proof {
            assert(behind@ =~= seq![0usize, 0usize, 0usize, 0usize, 0usize, 0usize]);
            assert(keypad@ =~= seq![0usize, 0usize, 0usize]);
        }
        Player {
            scene: SceneState::Active(SceneId::Desk),
            behind_puzzle_state: behind,
            keypad_drawer_puzzle_state: keypad,
            lightbulb_unlock: None,
            installed_lightbulb: None,
            right_speaker_broken: false,
            has_surge_protector: false,
            has_installed_surge_protector: false,
            has_morse_code_translator: false,
            has_installed_morse_code_translator: false,
            has_key: false,
            opened_key_drawer: false,
            dialed_numbers: Vec::new(),
        }
    }

    /// The restart-universe action: every puzzle array, flag and history goes
    /// back to its default, and the scene is forced from the Behind wall back
    /// to the Desk. The ring layout and the wheel alphabet are fixed
    /// definitions and are untouched by construction.
    pub fn restart_universe(&mut self)
        ensures
            final(self).wf(),
            spec_is_reset(
                *final(self),
                SceneState::ForceTransition(SceneId::Behind, SceneId::Desk),
            ),
    {
        *self = Player::new();
        self.scene = SceneState::ForceTransition(SceneId::Behind, SceneId::Desk);
    }

    /// Turn one wheel of the six-slot puzzle one step forward; nothing else
    /// changes.
    pub fn advance_behind_slot(&mut self, word_pos: usize)
        requires
            old(self).wf(),
            word_pos < BEHIND_PUZZLE_SLOTS,
        ensures
            final(self).wf(),
            final(self).behind_puzzle_state@ == old(self).behind_puzzle_state@.update(
                word_pos as int,
                (spec_advance_index(old(self).behind_puzzle_state@[word_pos as int] as int) as usize),
            ),
            *final(self) == (Player {
                behind_puzzle_state: final(self).behind_puzzle_state,
                ..*old(self)
            }),
    {
        let next = puzzle::advance_index(self.behind_puzzle_state[word_pos]);
        self.behind_puzzle_state.set(word_pos, next);
    }

    /// Turn one wheel of the keypad drawer one step forward; nothing else
    /// changes.
    pub fn advance_keypad_slot(&mut self, word_pos: usize)
        requires
            old(self).wf(),
            word_pos < KEYPAD_PUZZLE_SLOTS,
        ensures
            final(self).wf(),
            final(self).keypad_drawer_puzzle_state@ == old(
                self,
            ).keypad_drawer_puzzle_state@.update(
                word_pos as int,
                (spec_advance_index(
                    old(self).keypad_drawer_puzzle_state@[word_pos as int] as int,
                ) as usize),
            ),
            *final(self) == (Player {
                keypad_drawer_puzzle_state: final(self).keypad_drawer_puzzle_state,
                ..*old(self)
            }),
    {
        let next = puzzle::advance_index(self.keypad_drawer_puzzle_state[word_pos]);
        self.keypad_drawer_puzzle_state.set(word_pos, next);
    }

    /// Turn one wheel of the keypad drawer one step backward; nothing else
    /// changes.
    pub fn retreat_keypad_slot(&mut self, word_pos: usize)
        requires
            old(self).wf(),
            word_pos < KEYPAD_PUZZLE_SLOTS,
        ensures
            final(self).wf(),
            final(self).keypad_drawer_puzzle_state@ == old(
                self,
            ).keypad_drawer_puzzle_state@.update(
                word_pos as int,
                (spec_retreat_index(
                    old(self).keypad_drawer_puzzle_state@[word_pos as int] as int,
                ) as usize),
            ),
            *final(self) == (Player {
                keypad_drawer_puzzle_state: final(self).keypad_drawer_puzzle_state,
                ..*old(self)
            }),
    {
        let prev = puzzle::retreat_index(self.keypad_drawer_puzzle_state[word_pos]);
        self.keypad_drawer_puzzle_state.set(word_pos, prev);
    }

    /// Pick the key off the bulletin board; nothing else changes.
    pub fn take_key(&mut self)
        requires
            old(self).wf(),
        ensures
            final(self).wf(),
            *final(self) == (Player { has_key: true, ..*old(self) }),
    {
        self.has_key = true;
    }

    /// Plug the surge protector into the outlet; nothing else changes.
    pub fn install_surge_protector(&mut self)
        requires
            old(self).wf(),
        ensures
            final(self).wf(),
            *final(self) == (Player { has_installed_surge_protector: true, ..*old(self) }),
    {
        self.has_installed_surge_protector = true;
    }

    /// Try the lock on the locked drawer: with the key in hand the drawer
    /// opens and the scene is forced to the opened drawer; without it nothing
    /// happens.
    pub fn unlock_lock_drawer(&mut self)
        requires
            old(self).wf(),
        ensures
            final(self).wf(),
            *final(self) == if old(self).has_key {
                (Player {
                    opened_key_drawer: true,
                    scene: SceneState::ForceTransition(
                        SceneId::LockDrawer,
                        SceneId::LockDrawerSolved,
                    ),
                    ..*old(self)
                })
            } else {
                *old(self)
            },
    {
        if self.has_key {
            self.opened_key_drawer = true;
            self.scene = SceneState::ForceTransition(
                SceneId::LockDrawer,
                SceneId::LockDrawerSolved,
            );
        }
    }

    /// Take the morse-code translator out of the opened drawer, leaving the
    /// drawer empty; the scene is forced to the emptied drawer.
    pub fn take_morse_code_translator(&mut self)
        requires
            old(self).wf(),
        ensures
            final(self).wf(),
            *final(self) == (Player {
                has_morse_code_translator: true,
                scene: SceneState::ForceTransition(
                    SceneId::LockDrawerSolved,
                    SceneId::LockDrawerEmpty,
                ),
                ..*old(self)
            }),
    {
        self.has_morse_code_translator = true;
        self.scene = SceneState::ForceTransition(
            SceneId::LockDrawerSolved,
            SceneId::LockDrawerEmpty,
        );
    }

    /// Take the surge protector out of the solved keypad drawer, leaving the
    /// drawer empty; the scene is forced to the emptied drawer.
    pub fn take_surge_protector(&mut self)
        requires
            old(self).wf(),
        ensures
            final(self).wf(),
            *final(self) == (Player {
                has_surge_protector: true,
                scene: SceneState::ForceTransition(
                    SceneId::KeypadDrawerSolved,
                    SceneId::KeypadDrawerEmpty,
                ),
                ..*old(self)
            }),
    {
        self.has_surge_protector = true;
        self.scene = SceneState::ForceTransition(
            SceneId::KeypadDrawerSolved,
            SceneId::KeypadDrawerEmpty,
        );
    }

    /// Slot the translator module into the radio. Without the surge protector
    /// installed, the power surge breaks the right speaker; the returned flag
    /// says whether that destruction event fired.
    pub fn install_morse_code_translator(&mut self) -> (speaker_destroyed: bool)
        requires
            old(self).wf(),
        ensures
            final(self).wf(),
            speaker_destroyed == !old(self).has_installed_surge_protector,
            *final(self) == if old(self).has_installed_surge_protector {
                (Player { has_installed_morse_code_translator: true, ..*old(self) })
            } else {
                (Player {
                    has_installed_morse_code_translator: true,
                    right_speaker_broken: true,
                    ..*old(self)
                })
            },
    {
        self.has_installed_morse_code_translator = true;
        if !self.has_installed_surge_protector {
            self.right_speaker_broken = true;
            true
        } else {
            false
        }
    }

    /// Entering the lamp scene screws in whatever bulb colour has been
    /// unlocked; nothing else changes.
    pub fn enter_lamp(&mut self)
        requires
            old(self).wf(),
        ensures
            final(self).wf(),
            *final(self) == (Player {
                installed_lightbulb: old(self).lightbulb_unlock,
                ..*old(self)
            }),
    {
        self.installed_lightbulb = self.lightbulb_unlock;
    }

    /// Press one digit on the rotary phone: the digit joins the bounded dial
    /// history, and the result says whether the history now spells the target
    /// number (the universe-saved condition).
    pub fn press_phone_digit(&mut self, digit: usize) -> (solved: bool)
        requires
            old(self).wf(),
        ensures
            final(self).wf(),
            final(self).dialed_numbers@ == spec_press_digit(old(self).dialed_numbers@, digit),
            *final(self) == (Player { dialed_numbers: final(self).dialed_numbers, ..*old(self) }),
            solved == spec_dial_solved(final(self).dialed_numbers@),
    {
        puzzle::press_digit(&mut self.dialed_numbers, digit);
        puzzle::dial_solved(&self.dialed_numbers)
    }
}

impl Player {
    /// The characters the six wheels behind the bulletin ring show, in order.
    pub fn behind_word(&self) -> (r: Vec<char>)
        requires
            self.wf(),
        ensures
            r@.len() == BEHIND_PUZZLE_SLOTS,
            forall|i: int|
                0 <= i < BEHIND_PUZZLE_SLOTS ==> r@[i] == crate::puzzle::spec_puzzle_char(
                    self.behind_puzzle_state@[i] as int,
                ),
    {
        wheel_word(&self.behind_puzzle_state)
    }

    /// The characters the keypad drawer's three wheels show, in order.
    pub fn keypad_word(&self) -> (r: Vec<char>)
        requires
            self.wf(),
        ensures
            r@.len() == KEYPAD_PUZZLE_SLOTS,
            forall|i: int|
                0 <= i < KEYPAD_PUZZLE_SLOTS ==> r@[i] == crate::puzzle::spec_puzzle_char(
                    self.keypad_drawer_puzzle_state@[i] as int,
                ),
    {
        wheel_word(&self.keypad_drawer_puzzle_state)
    }
}

/// The characters a row of wheel slots shows, in order.
fn wheel_word(slots: &Vec<usize>) -> (r: Vec<char>)
    requires
        forall|i: int| 0 <= i < slots@.len() ==> slots@[i] < NUM_PUZZLE_CHARACTERS,
    ensures
        r@.len() == slots@.len(),
        forall|i: int|
            0 <= i < slots@.len() ==> r@[i] == crate::puzzle::spec_puzzle_char(slots@[i] as int),
{
    let mut word: Vec<char> = Vec::new();
    let mut i: usize = 0;
    while i < slots.len()
        invariant
            i <= slots@.len(),
            word@.len() == i,
            forall|j: int| 0 <= j < slots@.len() ==> slots@[j] < NUM_PUZZLE_CHARACTERS,
            forall|j: int|
                0 <= j < i ==> word@[j] == crate::puzzle::spec_puzzle_char(slots@[j] as int),
        decreases slots@.len() - i,
    {
        word.push(puzzle::puzzle_char(slots[i]));
        i += 1;
    }
    word
}

/// Whether the keypad drawer's three wheels spell "SEE".
pub fn is_keypad_drawer_solved(player: &Player) -> (r: bool)
    requires
        player.wf(),
    ensures
        r == spec_keypad_solved(player.keypad_drawer_puzzle_state@),
{
    puzzle::keypad_solved(&player.keypad_drawer_puzzle_state)
}

/// The scene a desk drawer click actually opens: each drawer shows its
/// locked, solved-with-content or emptied variant depending on narrative
/// progress; every other target is taken as it stands.
pub open spec fn spec_desk_target(p: Player, base: SceneId) -> SceneId {
    match base {
        SceneId::LockDrawer => if p.opened_key_drawer {
            if p.has_morse_code_translator {
                SceneId::LockDrawerEmpty
            } else {
                SceneId::LockDrawerSolved
            }
        } else {
            SceneId::LockDrawer
        },
        SceneId::KeypadDrawer => if spec_keypad_solved(p.keypad_drawer_puzzle_state@) {
            if p.has_surge_protector {
                SceneId::KeypadDrawerEmpty
            } else {
                SceneId::KeypadDrawerSolved
            }
        } else {
            SceneId::KeypadDrawer
        },
        _ => base,
    }
}

/// The scene a desk clickable with nominal target `base` leads to, given the
/// player's narrative progress.
pub fn desk_target(player: &Player, base: SceneId) -> (r: SceneId)
    requires
        player.wf(),
    ensures
        r == spec_desk_target(*player, base),
{
    match base {
        SceneId::LockDrawer => {
            if player.opened_key_drawer {
                if player.has_morse_code_translator {
                    SceneId::LockDrawerEmpty
                } else {
                    SceneId::LockDrawerSolved
                }
            } else {
                SceneId::LockDrawer
            }
        },
        SceneId::KeypadDrawer => {
            if is_keypad_drawer_solved(player) {
                if player.has_surge_protector {
                    SceneId::KeypadDrawerEmpty
                } else {
                    SceneId::KeypadDrawerSolved
                }
            } else {
                SceneId::KeypadDrawer
            }
        },
        _ => base,
    }
}

} // verus!
