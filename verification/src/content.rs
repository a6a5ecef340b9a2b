//! Per-scene clickable content and click routing.
//!
//! Each scene owns a list of clickable regions, a pure function of the
//! player's narrative progress; clicking resolves against that list, first
//! hit wins, and the hit's action mutates the player state.

use vstd::prelude::*;

use crate::player::{BEHIND_PUZZLE_SLOTS, KEYPAD_PUZZLE_SLOTS, LightbulbColor, Player};
use crate::scene::SceneId;
use crate::shapes::{spec_centered_rect, ClickableShape, Point, Rectangle};

verus! {

/// What a clickable region does when clicked.
#[derive(Clone, Copy, Debug, PartialEq, Eq, Structural)]
pub enum ClickableAction {
    /// Begin a player-driven transition to another scene.
    TransitionToScene(SceneId),
    /// Turn a wheel of the six-slot puzzle one step forward.
    AdvanceBehindSlot(usize),
    /// Turn a wheel of the keypad drawer one step forward.
    AdvanceKeypadSlot(usize),
    /// Turn a wheel of the keypad drawer one step backward.
    RetreatKeypadSlot(usize),
    /// Press a digit on the rotary phone.
    DialDigit(usize),
    /// Pick the key off the bulletin board.
    TakeKey,
    /// Plug the surge protector into the outlet.
    InstallSurgeProtector,
    /// Try the key on the locked drawer.
    UnlockLockDrawer,
    /// Take the translator module out of the opened drawer.
    TakeMorseCodeTranslator,
    /// Take the surge protector out of the solved keypad drawer.
    TakeSurgeProtector,
    /// Slot the translator module into the radio.
    InstallMorseCodeTranslator,
    /// Tune the radio dial to a preset frequency.
    SetFrequency(i32),
    /// Reset the universe from the Behind wall.
    RestartUniverse,
}

/// Every slot index an action carries stays inside its puzzle.
pub open spec fn action_wf(a: ClickableAction) -> bool {
    match a {
        ClickableAction::AdvanceBehindSlot(i) => i < BEHIND_PUZZLE_SLOTS,
        ClickableAction::AdvanceKeypadSlot(i) => i < KEYPAD_PUZZLE_SLOTS,
        ClickableAction::RetreatKeypadSlot(i) => i < KEYPAD_PUZZLE_SLOTS,
        _ => true,
    }
}

/// Hover text shown beside the cursor for each action: the desk props and
/// drawers name themselves, the pickups name what they are, and the rest is
/// unlabeled.
pub open spec fn spec_action_label(a: ClickableAction) -> Seq<char> {
    match a {
        ClickableAction::TransitionToScene(to) => match to {
            SceneId::Tv => "TV"@,
            SceneId::Lamp => "Lamp"@,
            SceneId::Radio => "Radio"@,
            SceneId::Phone => "Phone"@,
            SceneId::LockDrawer | SceneId::LockDrawerSolved | SceneId::LockDrawerEmpty => (
            "Top Drawer"@),
            SceneId::KeypadDrawer | SceneId::KeypadDrawerSolved | SceneId::KeypadDrawerEmpty => (
            "Bottom Drawer"@),
            _ => ""@,
        },
        ClickableAction::TakeKey => "Key"@,
        ClickableAction::InstallSurgeProtector => "Install Protector"@,
        ClickableAction::UnlockLockDrawer => "Lock"@,
        ClickableAction::TakeMorseCodeTranslator => "Radio Module"@,
        ClickableAction::TakeSurgeProtector => "Surge Protector"@,
        ClickableAction::InstallMorseCodeTranslator => "Module Slot"@,
        ClickableAction::SetFrequency(_) => "Button"@,
        _ => ""@,
    }
}

/// The hover text shown beside the cursor while it rests on a clickable with
/// this action.
pub fn action_label(a: ClickableAction) -> (r: &'static str)
    ensures
        r@ == spec_action_label(a),
{
    match a {
        ClickableAction::TransitionToScene(to) => match to {
            SceneId::Tv => "TV",
            SceneId::Lamp => "Lamp",
            SceneId::Radio => "Radio",
            SceneId::Phone => "Phone",
            SceneId::LockDrawer | SceneId::LockDrawerSolved | SceneId::LockDrawerEmpty => {
                "Top Drawer"
            },
            SceneId::KeypadDrawer | SceneId::KeypadDrawerSolved | SceneId::KeypadDrawerEmpty => {
                "Bottom Drawer"
            },
            _ => "",
        },
        ClickableAction::TakeKey => "Key",
        ClickableAction::InstallSurgeProtector => "Install Protector",
        ClickableAction::UnlockLockDrawer => "Lock",
        ClickableAction::TakeMorseCodeTranslator => "Radio Module",
        ClickableAction::TakeSurgeProtector => "Surge Protector",
        ClickableAction::InstallMorseCodeTranslator => "Module Slot",
        ClickableAction::SetFrequency(_) => "Button",
        _ => "",
    }
}

/// A clickable region of one scene and the action it triggers.
#[derive(Clone, Copy, Debug, PartialEq, Eq, Structural)]
pub struct Clickable {
    pub shape: ClickableShape,
    pub action: ClickableAction,
}

/// Notifications a click hands to the engine collaborators.
#[derive(Clone, Copy, Debug, PartialEq, Eq, Structural)]
pub enum GameEvent {
    /// A transition began: tear down this scene's content.
    UnloadScene(SceneId),
    /// The restart-universe button was pressed.
    ResetUniverse,
    /// The translator was installed without surge protection.
    RightSpeakerDestroyed,
    /// The dialed number matched the target.
    UniverseSaved,
    /// A radio preset button tuned the dial to this frequency.
    FrequencySet(i32),
}

/// A clickable rectangle centered on `(x, y)` triggering `action`.
pub open spec fn spec_rect_clickable(
    x: int,
    y: int,
    w: int,
    h: int,
    action: ClickableAction,
) -> Clickable {
    Clickable { shape: ClickableShape::Rectangle(spec_centered_rect(x, y, w, h)), action }
}

/// A clickable rectangle with the given edges triggering `action`.
pub open spec fn spec_edges_clickable(
    left: int,
    top: int,
    right: int,
    bottom: int,
    action: ClickableAction,
) -> Clickable {
    Clickable {
        shape: ClickableShape::Rectangle(
            Rectangle {
                top_left: Point { x: left as i32, y: top as i32 },
                bottom_right: Point { x: right as i32, y: bottom as i32 },
            },
        ),
        action,
    }
}

/// The six desk clickables: the four props and the two drawers, each drawer
/// leading to its locked, solved or emptied variant as progress dictates.
pub open spec fn spec_desk_clickables(p: Player) -> Seq<Clickable> {
    seq![
        spec_edges_clickable(
            335,
            240,
            925,
            -200,
            ClickableAction::TransitionToScene(SceneId::Tv),
        ),
        spec_edges_clickable(
            -710,
            415,
            -200,
            155,
            ClickableAction::TransitionToScene(SceneId::Lamp),
        ),
        spec_edges_clickable(
            -290,
            150,
            280,
            -210,
            ClickableAction::TransitionToScene(SceneId::Radio),
        ),
        spec_edges_clickable(
            -850,
            80,
            -300,
            -200,
            ClickableAction::TransitionToScene(SceneId::Phone),
        ),
        spec_edges_clickable(
            -831,
            -243,
            -498,
            -380,
            ClickableAction::TransitionToScene(
                crate::player::spec_desk_target(p, SceneId::LockDrawer),
            ),
        ),
        spec_edges_clickable(
            -828,
            -384,
            -501,
            -516,
            ClickableAction::TransitionToScene(
                crate::player::spec_desk_target(p, SceneId::KeypadDrawer),
            ),
        ),
    ]
}

/// The Behind wall: the restart-universe button and the six puzzle wheels.
pub open spec fn spec_behind_clickables() -> Seq<Clickable> {
    seq![
        spec_rect_clickable(-537, -37, 300, 600, ClickableAction::RestartUniverse),
        spec_rect_clickable(-105, -209, 45, 45, ClickableAction::AdvanceBehindSlot(0)),
        spec_rect_clickable(-66, -209, 45, 45, ClickableAction::AdvanceBehindSlot(1)),
        spec_rect_clickable(-24, -209, 45, 45, ClickableAction::AdvanceBehindSlot(2)),
        spec_rect_clickable(20, -209, 45, 45, ClickableAction::AdvanceBehindSlot(3)),
        spec_rect_clickable(59, -209, 45, 45, ClickableAction::AdvanceBehindSlot(4)),
        spec_rect_clickable(100, -209, 45, 45, ClickableAction::AdvanceBehindSlot(5)),
    ]
}

/// The keypad drawer's three wheels.
pub open spec fn spec_keypad_drawer_clickables() -> Seq<Clickable> {
    seq![
        spec_rect_clickable(-87, -239, 100, 100, ClickableAction::AdvanceKeypadSlot(0)),
        spec_rect_clickable(50, -239, 100, 100, ClickableAction::AdvanceKeypadSlot(1)),
        spec_rect_clickable(174, -239, 100, 100, ClickableAction::AdvanceKeypadSlot(2)),
    ]
}

/// The locked drawer's lock.
pub open spec fn spec_lock_drawer_clickables() -> Seq<Clickable> {
    seq![spec_rect_clickable(570, 357, 150, 150, ClickableAction::UnlockLockDrawer)]
}

/// The opened drawer's translator module.
pub open spec fn spec_lock_drawer_solved_clickables() -> Seq<Clickable> {
    seq![spec_rect_clickable(-100, 100, 800, 400, ClickableAction::TakeMorseCodeTranslator)]
}

/// The solved keypad drawer's surge protector.
pub open spec fn spec_keypad_drawer_solved_clickables() -> Seq<Clickable> {
    seq![spec_rect_clickable(-121, 305, 300, 300, ClickableAction::TakeSurgeProtector)]
}

/// The bulletin board: the key while it is still there, and the outlet while
/// the surge protector is carried but not yet installed.
pub open spec fn spec_bulletin_board_clickables(p: Player) -> Seq<Clickable> {
    (if !p.has_key {
        seq![spec_rect_clickable(-585, 347, 50, 300, ClickableAction::TakeKey)]
    } else {
        Seq::<Clickable>::empty()
    }) + (if p.has_surge_protector && !p.has_installed_surge_protector {
        seq![spec_rect_clickable(255, -287, 100, 300, ClickableAction::InstallSurgeProtector)]
    } else {
        Seq::<Clickable>::empty()
    })
}

/// The radio: the empty module slot until the translator is installed, and
/// the four station preset buttons.
pub open spec fn spec_radio_clickables(p: Player) -> Seq<Clickable> {
    (if !p.has_installed_morse_code_translator {
        seq![
            spec_rect_clickable(-480, 120, 430, 120, ClickableAction::InstallMorseCodeTranslator),
        ]
    } else {
        Seq::<Clickable>::empty()
    }) + seq![
        spec_edges_clickable(-700, -30, -511, -64, ClickableAction::SetFrequency(650)),
        spec_edges_clickable(-417, -30, -226, -64, ClickableAction::SetFrequency(750)),
        spec_edges_clickable(-700, -155, -511, -188, ClickableAction::SetFrequency(610)),
        spec_edges_clickable(-417, -155, -226, -188, ClickableAction::SetFrequency(700)),
    ]
}

/// The phone's nine dial buttons, present only once the red lightbulb is
/// installed.
pub open spec fn spec_phone_clickables(p: Player) -> Seq<Clickable> {
    if p.installed_lightbulb == Some(LightbulbColor::Red) {
        seq![
            spec_rect_clickable(-41, 30, 50, 50, ClickableAction::DialDigit(0)),
            spec_rect_clickable(142, 35, 50, 50, ClickableAction::DialDigit(1)),
            spec_rect_clickable(329, 28, 50, 50, ClickableAction::DialDigit(2)),
            spec_rect_clickable(-74, -138, 50, 50, ClickableAction::DialDigit(3)),
            spec_rect_clickable(134, -141, 50, 50, ClickableAction::DialDigit(4)),
            spec_rect_clickable(333, -159, 50, 50, ClickableAction::DialDigit(5)),
            spec_rect_clickable(-91, -345, 50, 50, ClickableAction::DialDigit(6)),
            spec_rect_clickable(135, -345, 50, 50, ClickableAction::DialDigit(7)),
            spec_rect_clickable(327, -356, 50, 50, ClickableAction::DialDigit(8)),
        ]
    } else {
        Seq::<Clickable>::empty()
    }
}

/// The clickable content of each scene, as a function of narrative progress.
/// Scenes without interactive content have none.
pub open spec fn spec_scene_clickables(p: Player, scene: SceneId) -> Seq<Clickable> {
    match scene {
        SceneId::Desk => spec_desk_clickables(p),
        SceneId::Behind => spec_behind_clickables(),
        SceneId::KeypadDrawer => spec_keypad_drawer_clickables(),
        SceneId::KeypadDrawerSolved => spec_keypad_drawer_solved_clickables(),
        SceneId::LockDrawer => spec_lock_drawer_clickables(),
        SceneId::LockDrawerSolved => spec_lock_drawer_solved_clickables(),
        SceneId::BulletinBoard => spec_bulletin_board_clickables(p),
        SceneId::Radio => spec_radio_clickables(p),
        SceneId::Phone => spec_phone_clickables(p),
        _ => Seq::<Clickable>::empty(),
    }
}

/// A clickable rectangle centered on `(x, y)` triggering `action`.
fn rect_clickable(x: i32, y: i32, w: i32, h: i32, action: ClickableAction) -> (c: Clickable)
    requires
        0 <= w <= 100_000,
        0 <= h <= 100_000,
        -1_000_000 <= x <= 1_000_000,
        -1_000_000 <= y <= 1_000_000,
    ensures
        c == spec_rect_clickable(x as int, y as int, w as int, h as int, action),
{
    Clickable {
        shape: ClickableShape::Rectangle(
            Rectangle::from_pos_width_height(Point { x, y }, w, h),
        ),
        action,
    }
}

/// A clickable rectangle with the given edges triggering `action`.
fn edges_clickable(left: i32, top: i32, right: i32, bottom: i32, action: ClickableAction) -> (c:
    Clickable)
    ensures
        c == spec_edges_clickable(left as int, top as int, right as int, bottom as int, action),
{
    Clickable {
        shape: ClickableShape::Rectangle(
            Rectangle {
                top_left: Point { x: left, y: top },
                bottom_right: Point { x: right, y: bottom },
            },
        ),
        action,
    }
}

/// Build the clickable content of `scene` for the player's current progress.
pub fn scene_clickables(player: &Player, scene: SceneId) -> (r: Vec<Clickable>)
    requires
        player.wf(),
    ensures
        r@ == spec_scene_clickables(*player, scene),
{
    let mut v: Vec<Clickable> = Vec::new();
    match scene {
        SceneId::Desk => {
            v.push(
                edges_clickable(335, 240, 925, -200, ClickableAction::TransitionToScene(SceneId::Tv)),
            );
            v.push(
                edges_clickable(
                    -710,
                    415,
                    -200,
                    155,
                    ClickableAction::TransitionToScene(SceneId::Lamp),
                ),
            );
            v.push(
                edges_clickable(
                    -290,
                    150,
                    280,
                    -210,
                    ClickableAction::TransitionToScene(SceneId::Radio),
                ),
            );
            v.push(
                edges_clickable(
                    -850,
                    80,
                    -300,
                    -200,
                    ClickableAction::TransitionToScene(SceneId::Phone),
                ),
            );
            let lock_target = crate::player::desk_target(player, SceneId::LockDrawer);
            v.push(
                edges_clickable(
                    -831,
                    -243,
                    -498,
                    -380,
                    ClickableAction::TransitionToScene(lock_target),
                ),
            );
            let keypad_target = crate::player::desk_target(player, SceneId::KeypadDrawer);
            v.push(
                edges_clickable(
                    -828,
                    -384,
                    -501,
                    -516,
                    ClickableAction::TransitionToScene(keypad_target),
                ),
            );
            proof {
                assert(v@ =~= spec_scene_clickables(*player, scene));
            }
        },
        SceneId::Behind => {
            v.push(rect_clickable(-537, -37, 300, 600, ClickableAction::RestartUniverse));
            v.push(rect_clickable(-105, -209, 45, 45, ClickableAction::AdvanceBehindSlot(0)));
            v.push(rect_clickable(-66, -209, 45, 45, ClickableAction::AdvanceBehindSlot(1)));
            v.push(rect_clickable(-24, -209, 45, 45, ClickableAction::AdvanceBehindSlot(2)));
            v.push(rect_clickable(20, -209, 45, 45, ClickableAction::AdvanceBehindSlot(3)));
            v.push(rect_clickable(59, -209, 45, 45, ClickableAction::AdvanceBehindSlot(4)));
            v.push(rect_clickable(100, -209, 45, 45, ClickableAction::AdvanceBehindSlot(5)));
            proof {
                assert(v@ =~= spec_scene_clickables(*player, scene));
            }
        },
        SceneId::KeypadDrawer => {
            v.push(rect_clickable(-87, -239, 100, 100, ClickableAction::AdvanceKeypadSlot(0)));
            v.push(rect_clickable(50, -239, 100, 100, ClickableAction::AdvanceKeypadSlot(1)));
            v.push(rect_clickable(174, -239, 100, 100, ClickableAction::AdvanceKeypadSlot(2)));
            proof {
                assert(v@ =~= spec_scene_clickables(*player, scene));
            }
        },
        SceneId::KeypadDrawerSolved => {
            v.push(rect_clickable(-121, 305, 300, 300, ClickableAction::TakeSurgeProtector));
            proof {
                assert(v@ =~= spec_scene_clickables(*player, scene));
            }
        },
        SceneId::LockDrawer => {
            v.push(rect_clickable(570, 357, 150, 150, ClickableAction::UnlockLockDrawer));
            proof {
                assert(v@ =~= spec_scene_clickables(*player, scene));
            }
        },
        SceneId::LockDrawerSolved => {
            v.push(rect_clickable(-100, 100, 800, 400, ClickableAction::TakeMorseCodeTranslator));
            proof {
                assert(v@ =~= spec_scene_clickables(*player, scene));
            }
        },
        SceneId::BulletinBoard => {
            if !player.has_key {
                v.push(rect_clickable(-585, 347, 50, 300, ClickableAction::TakeKey));
            }
            if player.has_surge_protector && !player.has_installed_surge_protector {
                v.push(rect_clickable(255, -287, 100, 300, ClickableAction::InstallSurgeProtector));
            }
            proof {
                assert(v@ =~= spec_scene_clickables(*player, scene));
            }
        },
        SceneId::Radio => {
            if !player.has_installed_morse_code_translator {
                v.push(
                    rect_clickable(-480, 120, 430, 120, ClickableAction::InstallMorseCodeTranslator),
                );
            }
            v.push(edges_clickable(-700, -30, -511, -64, ClickableAction::SetFrequency(650)));
            v.push(edges_clickable(-417, -30, -226, -64, ClickableAction::SetFrequency(750)));
            v.push(edges_clickable(-700, -155, -511, -188, ClickableAction::SetFrequency(610)));
            v.push(edges_clickable(-417, -155, -226, -188, ClickableAction::SetFrequency(700)));
            proof {
                assert(v@ =~= spec_scene_clickables(*player, scene));
            }
        },
        SceneId::Phone => {
            if matches!(player.installed_lightbulb, Some(LightbulbColor::Red)) {
                v.push(rect_clickable(-41, 30, 50, 50, ClickableAction::DialDigit(0)));
                v.push(rect_clickable(142, 35, 50, 50, ClickableAction::DialDigit(1)));
                v.push(rect_clickable(329, 28, 50, 50, ClickableAction::DialDigit(2)));
                v.push(rect_clickable(-74, -138, 50, 50, ClickableAction::DialDigit(3)));
                v.push(rect_clickable(134, -141, 50, 50, ClickableAction::DialDigit(4)));
                v.push(rect_clickable(333, -159, 50, 50, ClickableAction::DialDigit(5)));
                v.push(rect_clickable(-91, -345, 50, 50, ClickableAction::DialDigit(6)));
                v.push(rect_clickable(135, -345, 50, 50, ClickableAction::DialDigit(7)));
                v.push(rect_clickable(327, -356, 50, 50, ClickableAction::DialDigit(8)));
            }
            proof {
                assert(v@ =~= spec_scene_clickables(*player, scene));
            }
        },
        _ => {
            proof {
                assert(v@ =~= spec_scene_clickables(*player, scene));
            }
        },
    }
    v
}

/// Every action in every scene's clickable table keeps its slot index inside
/// its puzzle.
pub proof fn lemma_scene_clickables_actions_wf(p: Player, scene: SceneId)
    ensures
        forall|i: int|
            0 <= i < spec_scene_clickables(p, scene).len() ==> action_wf(
                #[trigger] spec_scene_clickables(p, scene)[i].action,
            ),
{
}

/// The action of the first clickable containing the point, scanning the list
/// front to back; nothing when the point misses them all.
pub open spec fn spec_first_hit(cs: Seq<Clickable>, pos: Point) -> Option<ClickableAction>
    decreases cs.len(),
{
    if cs.len() == 0 {
        None
    } else if crate::shapes::spec_shape_contains(cs[0].shape, pos) {
        Some(cs[0].action)
    } else {
        spec_first_hit(cs.drop_first(), pos)
    }
}

/// Skipping clickables the point misses does not change the first hit.
proof fn lemma_first_hit_skip(cs: Seq<Clickable>, pos: Point, i: int)
    requires
        0 <= i <= cs.len(),
        forall|j: int|
            0 <= j < i ==> !crate::shapes::spec_shape_contains(#[trigger] cs[j].shape, pos),
    ensures
        spec_first_hit(cs, pos) == spec_first_hit(cs.skip(i), pos),
    decreases i,
{
    if i == 0 {
        assert(cs.skip(0) =~= cs);
    } else {
        lemma_first_hit_skip(cs, pos, i - 1);
        assert(cs.skip(i - 1)[0] == cs[i - 1]);
        assert(cs.skip(i - 1).drop_first() =~= cs.skip(i));
    }
}

/// Find the action of the first clickable containing the point.
pub fn first_hit(clickables: &Vec<Clickable>, pos: Point) -> (r: Option<ClickableAction>)
    ensures
        r == spec_first_hit(clickables@, pos),
{
    let mut i: usize = 0;
    while i < clickables.len()
        invariant
            i <= clickables@.len(),
            forall|j: int|
                0 <= j < i ==> !crate::shapes::spec_shape_contains(
                    #[trigger] clickables@[j].shape,
                    pos,
                ),
        decreases clickables@.len() - i,
    {
        if clickables[i].shape.contains(pos) {
            proof {
                lemma_first_hit_skip(clickables@, pos, i as int);
                assert(clickables@.skip(i as int)[0] == clickables@[i as int]);
            }
            return Some(clickables[i].action);
        }
        i += 1;
    }
    proof {
        lemma_first_hit_skip(clickables@, pos, clickables@.len() as int);
    }
    None
}

/// How one click action carries the player state from `pre` to `post` and
/// which event it emits: the exact effect of every action, as a relation.
pub open spec fn spec_action_applies(
    pre: Player,
    a: ClickableAction,
    post: Player,
    ev: Option<GameEvent>,
) -> bool {
    match a {
        ClickableAction::TransitionToScene(to) => match pre.scene {
            crate::transition::SceneState::Active(current) => if current != to {
                post == (Player {
                    scene: crate::transition::SceneState::Transitioning(current, to, 0),
                    ..pre
                }) && ev == Some(GameEvent::UnloadScene(current))
            } else {
                post == pre && ev is None
            },
            _ => post == pre && ev is None,
        },
        ClickableAction::AdvanceBehindSlot(i) => {
            &&& post.behind_puzzle_state@ == pre.behind_puzzle_state@.update(
                i as int,
                (crate::puzzle::spec_advance_index(pre.behind_puzzle_state@[i as int] as int)
                    as usize),
            )
            &&& post == (Player { behind_puzzle_state: post.behind_puzzle_state, ..pre })
            &&& ev is None
        },
        ClickableAction::AdvanceKeypadSlot(i) => {
            &&& post.keypad_drawer_puzzle_state@ == pre.keypad_drawer_puzzle_state@.update(
                i as int,
                (crate::puzzle::spec_advance_index(
                    pre.keypad_drawer_puzzle_state@[i as int] as int,
                ) as usize),
            )
            &&& post == (Player { keypad_drawer_puzzle_state: post.keypad_drawer_puzzle_state, ..pre })
            &&& ev is None
        },
        ClickableAction::RetreatKeypadSlot(i) => {
            &&& post.keypad_drawer_puzzle_state@ == pre.keypad_drawer_puzzle_state@.update(
                i as int,
                (crate::puzzle::spec_retreat_index(
                    pre.keypad_drawer_puzzle_state@[i as int] as int,
                ) as usize),
            )
            &&& post == (Player { keypad_drawer_puzzle_state: post.keypad_drawer_puzzle_state, ..pre })
            &&& ev is None
        },
        ClickableAction::DialDigit(d) => {
            &&& post.dialed_numbers@ == crate::puzzle::spec_press_digit(pre.dialed_numbers@, d)
            &&& post == (Player { dialed_numbers: post.dialed_numbers, ..pre })
            &&& ev == if crate::puzzle::spec_dial_solved(post.dialed_numbers@) {
                Some(GameEvent::UniverseSaved)
            } else {
                None::<GameEvent>
            }
        },
        ClickableAction::TakeKey => {
            &&& post == (Player { has_key: true, ..pre })
            &&& ev is None
        },
        ClickableAction::InstallSurgeProtector => {
            &&& post == (Player { has_installed_surge_protector: true, ..pre })
            &&& ev is None
        },
        ClickableAction::UnlockLockDrawer => {
            &&& post == if pre.has_key {
                (Player {
                    opened_key_drawer: true,
                    scene: crate::transition::SceneState::ForceTransition(
                        SceneId::LockDrawer,
                        SceneId::LockDrawerSolved,
                    ),
                    ..pre
                })
            } else {
                pre
            }
            &&& ev is None
        },
        ClickableAction::TakeMorseCodeTranslator => {
            &&& post == (Player {
                has_morse_code_translator: true,
                scene: crate::transition::SceneState::ForceTransition(
                    SceneId::LockDrawerSolved,
                    SceneId::LockDrawerEmpty,
                ),
                ..pre
            })
            &&& ev is None
        },
        ClickableAction::TakeSurgeProtector => {
            &&& post == (Player {
                has_surge_protector: true,
                scene: crate::transition::SceneState::ForceTransition(
                    SceneId::KeypadDrawerSolved,
                    SceneId::KeypadDrawerEmpty,
                ),
                ..pre
            })
            &&& ev is None
        },
        ClickableAction::InstallMorseCodeTranslator => {
            &&& post == if pre.has_installed_surge_protector {
                (Player { has_installed_morse_code_translator: true, ..pre })
            } else {
                (Player {
                    has_installed_morse_code_translator: true,
                    right_speaker_broken: true,
                    ..pre
                })
            }
            &&& ev == if pre.has_installed_surge_protector {
                None::<GameEvent>
            } else {
                Some(GameEvent::RightSpeakerDestroyed)
            }
        },
        ClickableAction::SetFrequency(f) => {
            &&& post == pre
            &&& ev == Some(GameEvent::FrequencySet(f))
        },
        ClickableAction::RestartUniverse => {
            &&& crate::player::spec_is_reset(
                post,
                crate::transition::SceneState::ForceTransition(SceneId::Behind, SceneId::Desk),
            )
            &&& ev == Some(GameEvent::ResetUniverse)
        },
    }
}

/// Apply one click action to the player state and report the event it emits.
pub fn apply_action(player: &mut Player, action: ClickableAction) -> (ev: Option<GameEvent>)
    requires
        old(player).wf(),
        action_wf(action),
    ensures
        final(player).wf(),
        spec_action_applies(*old(player), action, *final(player), ev),
{
    match action {
        ClickableAction::TransitionToScene(to) => {
            let unload = player.scene.request_transition(to);
            match unload {
                Some(from) => Some(GameEvent::UnloadScene(from)),
                None => None,
            }
        },
        ClickableAction::AdvanceBehindSlot(i) => {
            player.advance_behind_slot(i);
            None
        },
        ClickableAction::AdvanceKeypadSlot(i) => {
            player.advance_keypad_slot(i);
            None
        },
        ClickableAction::RetreatKeypadSlot(i) => {
            player.retreat_keypad_slot(i);
            None
        },
        ClickableAction::DialDigit(d) => {
            let solved = player.press_phone_digit(d);
            if solved {
                Some(GameEvent::UniverseSaved)
            } else {
                None
            }
        },
        ClickableAction::TakeKey => {
            player.take_key();
            None
        },
        ClickableAction::InstallSurgeProtector => {
            player.install_surge_protector();
            None
        },
        ClickableAction::UnlockLockDrawer => {
            player.unlock_lock_drawer();
            None
        },
        ClickableAction::TakeMorseCodeTranslator => {
            player.take_morse_code_translator();
            None
        },
        ClickableAction::TakeSurgeProtector => {
            player.take_surge_protector();
            None
        },
        ClickableAction::InstallMorseCodeTranslator => {
            let destroyed = player.install_morse_code_translator();
            if destroyed {
                Some(GameEvent::RightSpeakerDestroyed)
            } else {
                None
            }
        },
        ClickableAction::SetFrequency(f) => Some(GameEvent::FrequencySet(f)),
        ClickableAction::RestartUniverse => {
            player.restart_universe();
            Some(GameEvent::ResetUniverse)
        },
    }
}

/// Route one click at `pos`: while a scene is active, resolve the point
/// against that scene's clickable content and apply the first hit's action;
/// during a transition, or when the point misses everything, nothing happens.
pub fn handle_click(player: &mut Player, pos: Point) -> (ev: Option<GameEvent>)
    requires
        old(player).wf(),
    ensures
        final(player).wf(),
        match old(player).scene {
            crate::transition::SceneState::Active(s) => match spec_first_hit(
                spec_scene_clickables(*old(player), s),
                pos,
            ) {
                Some(a) => spec_action_applies(*old(player), a, *final(player), ev),
                None => *final(player) == *old(player) && ev is None,
            },
            _ => *final(player) == *old(player) && ev is None,
        },
{
    let scene = match player.scene {
        crate::transition::SceneState::Active(s) => s,
        _ => {
            return None;
        },
    };
    let clickables = scene_clickables(player, scene);
    match first_hit(&clickables, pos) {
        Some(action) => {
            proof {
                lemma_scene_clickables_actions_wf(*player, scene);
                lemma_first_hit_is_in_table(clickables@, pos);
            }
            apply_action(player, action)
        },
        None => None,
    }
}

/// A first hit's action is the action of some clickable in the table.
proof fn lemma_first_hit_is_in_table(cs: Seq<Clickable>, pos: Point)
    ensures
        spec_first_hit(cs, pos) matches Some(a) ==> exists|i: int|
            0 <= i < cs.len() && #[trigger] cs[i].action == a,
    decreases cs.len(),
{
    if cs.len() > 0 {
        if !crate::shapes::spec_shape_contains(cs[0].shape, pos) {
            lemma_first_hit_is_in_table(cs.drop_first(), pos);
            if spec_first_hit(cs, pos) is Some {
                let a = spec_first_hit(cs.drop_first(), pos)->Some_0;
                let i = choose|i: int|
                    0 <= i < cs.drop_first().len() && #[trigger] cs.drop_first()[i].action == a;
                assert(cs[i + 1].action == a);
            }
        }
    }
}

} // verus!
