//! Scene catalog: the identifiers of every visitable location, the circular
//! "main ring" of hub scenes, and the navigation rules between them.
//!
//! Four hub scenes (Desk, Door, Behind, BulletinBoard) are arranged in a ring
//! of length four; moving Left, Right or Behind steps -1, +1 or +2 around the
//! ring. Every other scene is a "spoke" reachable from a hub, and the Behind
//! control escapes from any spoke back to the Desk.

use vstd::prelude::*;

verus! {

/// Identifier of a visitable location.
#[derive(Clone, Copy, Debug, PartialEq, Eq, Structural)]
pub enum SceneId {
    Desk,
    Radio,
    Tv,
    Lamp,
    KeypadDrawer,
    KeypadDrawerSolved,
    KeypadDrawerEmpty,
    LockDrawer,
    LockDrawerSolved,
    LockDrawerEmpty,
    BulletinBoard,
    Door,
    Behind,
    Phone,
}

/// A navigation control the player can press while looking at a scene.
#[derive(Clone, Copy, Debug, PartialEq, Eq, Structural)]
pub enum ScenePlayerControl {
    TransitionSceneLeft,
    TransitionSceneRight,
    TransitionSceneBehind,
}

/// Number of scenes in the main ring.
pub const MAIN_RING_LEN: usize = 4;

/// The scene at each position of the main ring, in left-to-right order.
pub open spec fn spec_ring_scene(i: int) -> SceneId {
    if i == 0 {
        SceneId::Desk
    } else if i == 1 {
        SceneId::Door
    } else if i == 2 {
        SceneId::Behind
    } else {
        SceneId::BulletinBoard
    }
}

/// Position of a scene within the main ring; meaningful only for ring members.
pub open spec fn spec_ring_position(s: SceneId) -> int {
    match s {
        SceneId::Desk => 0,
        SceneId::Door => 1,
        SceneId::Behind => 2,
        SceneId::BulletinBoard => 3,
        _ => -1,
    }
}

/// Whether a scene is one of the four hub scenes of the main ring.
pub open spec fn is_ring_member(s: SceneId) -> bool {
    spec_ring_position(s) >= 0
}

/// Offset around the ring for each control: Left = -1, Right = +1, Behind = +2.
pub open spec fn spec_ring_delta(c: ScenePlayerControl) -> int {
    match c {
        ScenePlayerControl::TransitionSceneLeft => -1,
        ScenePlayerControl::TransitionSceneRight => 1,
        ScenePlayerControl::TransitionSceneBehind => 2,
    }
}

/// The ring neighbour reached from a ring member `s` by control `c`,
/// stepping around the four-element ring modulo its length.
pub open spec fn ring_adjacency(s: SceneId, c: ScenePlayerControl) -> SceneId {
    spec_ring_scene((spec_ring_position(s) + spec_ring_delta(c)) % 4)
}

/// Where a navigation control leads from scene `s`: ring members step around
/// the ring; spoke scenes escape to the Desk on Behind and ignore the rest.
pub open spec fn spec_next_scene(s: SceneId, c: ScenePlayerControl) -> Option<SceneId> {
    if is_ring_member(s) {
        Some(ring_adjacency(s, c))
    } else if c is TransitionSceneBehind {
        Some(SceneId::Desk)
    } else {
        None
    }
}

impl SceneId {
    /// Position of this scene in the main ring, if it is a ring member.
    fn ring_position(self) -> (r: Option<usize>)
        ensures
            is_ring_member(self) <==> r is Some,
            r is Some ==> r->Some_0 == spec_ring_position(self),
    {
        match self {
            SceneId::Desk => Some(0),
            SceneId::Door => Some(1),
            SceneId::Behind => Some(2),
            SceneId::BulletinBoard => Some(3),
            _ => None,
        }
    }

    /// The scene a navigation control leads to from this scene, if any.
    pub fn next_scene(self, control: ScenePlayerControl) -> (r: Option<SceneId>)
        ensures
            r == spec_next_scene(self, control),
    {
        match self.ring_position() {
            Some(i) => Some(Self::main_ring_next_scene(i, control)),
            None => Self::try_escape_sub_scene(self, control),
        }
    }

    /// Step around the main ring from position `index` by the given control.
    fn main_ring_next_scene(index: usize, control: ScenePlayerControl) -> (r: SceneId)
        requires
            index < 4,
        ensures
            r == spec_ring_scene((index + spec_ring_delta(control)) % 4),
    {
        let next: usize = match control {
            ScenePlayerControl::TransitionSceneLeft => (index + 3) % 4,
            ScenePlayerControl::TransitionSceneRight => (index + 1) % 4,
            ScenePlayerControl::TransitionSceneBehind => (index + 2) % 4,
        };
        match next {
            0 => SceneId::Desk,
            1 => SceneId::Door,
            2 => SceneId::Behind,
            _ => SceneId::BulletinBoard,
        }
    }

    /// From a spoke scene, the Behind control escapes back to the Desk.
    fn try_escape_sub_scene(self, control: ScenePlayerControl) -> (r: Option<SceneId>)
        requires
            !is_ring_member(self),
        ensures
            r == if control is TransitionSceneBehind {
                Some(SceneId::Desk)
            } else {
                None::<SceneId>
            },
    {
        match control {
            ScenePlayerControl::TransitionSceneBehind => (),
            _ => {
                return None;
            },
        }
        match self {
            SceneId::Radio
            | SceneId::Tv
            | SceneId::Lamp
            | SceneId::KeypadDrawer
            | SceneId::KeypadDrawerSolved
            | SceneId::KeypadDrawerEmpty
            | SceneId::LockDrawer
            | SceneId::LockDrawerEmpty
            | SceneId::LockDrawerSolved
            | SceneId::Phone => Some(SceneId::Desk),
            _ => None,
        }
    }
}

/// Path of the background image asset for each scene.
pub open spec fn spec_asset_path(s: SceneId) -> Seq<char> {
    match s {
        SceneId::Desk => "images/scenes/desk.png"@,
        SceneId::Radio => "images/scenes/radio.png"@,
        SceneId::Tv => "images/scenes/tv.png"@,
        SceneId::Lamp => "images/scenes/lamp.png"@,
        SceneId::KeypadDrawer => "images/scenes/locked_drawer_1.png"@,
        SceneId::KeypadDrawerSolved => "images/scenes/inside_drawer_1.png"@,
        SceneId::KeypadDrawerEmpty => "images/scenes/inside_drawer_1_empty.png"@,
        SceneId::LockDrawer => "images/scenes/locked_drawer_2.png"@,
        SceneId::LockDrawerSolved => "images/scenes/inside_drawer_2.png"@,
        SceneId::LockDrawerEmpty => "images/scenes/inside_drawer_2_empty.png"@,
        SceneId::BulletinBoard => "images/scenes/bulletin_board.png"@,
        SceneId::Door => "images/scenes/door.png"@,
        SceneId::Behind => "images/scenes/restart_universe_button.png"@,
        SceneId::Phone => "images/scenes/phone.png"@,
    }
}

impl SceneId {
    /// Path of this scene's background image asset.
    pub fn asset_path(self) -> (r: &'static str)
        ensures
            r@ == spec_asset_path(self),
    {
        match self {
            SceneId::Desk => "images/scenes/desk.png",
            SceneId::Radio => "images/scenes/radio.png",
            SceneId::Tv => "images/scenes/tv.png",
            SceneId::Lamp => "images/scenes/lamp.png",
            SceneId::KeypadDrawer => "images/scenes/locked_drawer_1.png",
            SceneId::KeypadDrawerSolved => "images/scenes/inside_drawer_1.png",
            SceneId::KeypadDrawerEmpty => "images/scenes/inside_drawer_1_empty.png",
            SceneId::LockDrawer => "images/scenes/locked_drawer_2.png",
            SceneId::LockDrawerSolved => "images/scenes/inside_drawer_2.png",
            SceneId::LockDrawerEmpty => "images/scenes/inside_drawer_2_empty.png",
            SceneId::BulletinBoard => "images/scenes/bulletin_board.png",
            SceneId::Door => "images/scenes/door.png",
            SceneId::Behind => "images/scenes/restart_universe_button.png",
            SceneId::Phone => "images/scenes/phone.png",
        }
    }
}

/// Moving Left and then Right around the ring returns to the starting scene.
pub proof fn lemma_ring_left_right_round_trip(s: SceneId)
    requires
        is_ring_member(s),
    ensures
        ring_adjacency(
            ring_adjacency(s, ScenePlayerControl::TransitionSceneLeft),
            ScenePlayerControl::TransitionSceneRight,
        ) == s,
{
}

} // verus!
