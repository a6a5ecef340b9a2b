//! Scene transition engine: a small finite-state machine over what is on
//! screen. A scene is either `Active`, in a timed cross-fade (`Transitioning`,
//! whose tick counts from 0 up to the fixed duration), or marked for an
//! immediate, event-driven change (`ForceTransition`, collapsed into a fresh
//! `Transitioning` by the next tick).
//!
//! Player-driven transitions are silently ignored while a cross-fade is in
//! progress; a forced transition is the one path that overrides any state.

use vstd::prelude::*;

use crate::scene::{spec_next_scene, SceneId, ScenePlayerControl};

verus! {

/// Number of ticks a cross-fade between two scenes takes.
pub const TICKS_PER_TRANSITION: u8 = 15;

/// What is currently on screen.
#[derive(Clone, Copy, Debug, PartialEq, Eq, Structural)]
pub enum SceneState {
    /// One scene is fully shown and accepts input.
    Active(SceneId),
    /// A cross-fade from the first scene to the second; the counter has
    /// advanced the given number of ticks.
    Transitioning(SceneId, SceneId, u8),
    /// An instantaneous scene change requested by puzzle-completion logic,
    /// turned into `Transitioning(from, to, 0)` by the next tick.
    ForceTransition(SceneId, SceneId),
}

/// Content events the engine emits for collaborators: tear down the content
/// of a scene that is leaving, or build the content of one that has arrived.
#[derive(Clone, Copy, Debug, PartialEq, Eq, Structural)]
pub enum TransitionEvent {
    Idle,
    Unload(SceneId),
    Load(SceneId),
}

/// State the engine advances to on one tick.
pub open spec fn spec_tick_state(s: SceneState) -> SceneState {
    match s {
        SceneState::ForceTransition(from, to) => SceneState::Transitioning(from, to, 0),
        SceneState::Transitioning(from, to, n) => if n + 1 == TICKS_PER_TRANSITION {
            SceneState::Active(to)
        } else {
            SceneState::Transitioning(from, to, (n + 1) as u8)
        },
        SceneState::Active(_) => s,
    }
}

/// Content event one tick emits: exactly one unload when a forced transition
/// begins its cross-fade, exactly one load when a cross-fade completes.
pub open spec fn spec_tick_event(s: SceneState) -> TransitionEvent {
    match s {
        SceneState::ForceTransition(from, _) => TransitionEvent::Unload(from),
        SceneState::Transitioning(_, to, n) => if n + 1 == TICKS_PER_TRANSITION {
            TransitionEvent::Load(to)
        } else {
            TransitionEvent::Idle
        },
        SceneState::Active(_) => TransitionEvent::Idle,
    }
}

impl SceneState {
    /// A transition never leads from a scene to itself, and a cross-fade
    /// counter never passes the transition duration.
    pub open spec fn wf(self) -> bool {
        match self {
            SceneState::Active(_) => true,
            SceneState::Transitioning(from, to, n) => from != to && n < TICKS_PER_TRANSITION,
            SceneState::ForceTransition(from, to) => from != to,
        }
    }

    /// Begin a player-driven transition to `target`: effective only when a
    /// scene is active and `target` differs from it, a no-op otherwise
    /// (in particular while a cross-fade is already in progress). Returns the
    /// scene whose content must be unloaded when the transition starts.
    pub fn request_transition(&mut self, target: SceneId) -> (unload: Option<SceneId>)
        requires
            old(self).wf(),
        ensures
            final(self).wf(),
            match *old(self) {
                SceneState::Active(current) => if current != target {
                    *final(self) == SceneState::Transitioning(current, target, 0)
                        && unload == Some(current)
                } else {
                    *final(self) == *old(self) && unload is None
                },
                _ => *final(self) == *old(self) && unload is None,
            },
    {
        match *self {
            SceneState::Active(current) => {
                if current != target {
                    *self = SceneState::Transitioning(current, target, 0);
                    Some(current)
                } else {
                    None
                }
            },
            _ => None,
        }
    }

    /// Begin the transition a navigation control asks for from the active
    /// scene, if there is one; delegates to `request_transition`.
    pub fn request_ring_move(&mut self, control: ScenePlayerControl) -> (unload: Option<SceneId>)
        requires
            old(self).wf(),
        ensures
            final(self).wf(),
            match *old(self) {
                SceneState::Active(current) => match spec_next_scene(current, control) {
                    Some(next) => if current != next {
                        *final(self) == SceneState::Transitioning(current, next, 0)
                            && unload == Some(current)
                    } else {
                        *final(self) == *old(self) && unload is None
                    },
                    None => *final(self) == *old(self) && unload is None,
                },
                _ => *final(self) == *old(self) && unload is None,
            },
    {
        let current = match *self {
            SceneState::Active(current) => current,
            _ => {
                return None;
            },
        };
        match current.next_scene(control) {
            Some(next) => self.request_transition(next),
            None => None,
        }
    }

    /// Record an event-driven scene change, permitted whatever the current
    /// state: the one path that can override an active scene unconditionally.
    pub fn force_transition(&mut self, from: SceneId, to: SceneId)
        requires
            from != to,
        ensures
            *final(self) == SceneState::ForceTransition(from, to),
    {
        *self = SceneState::ForceTransition(from, to);
    }

    /// Advance the engine by one tick: a forced transition starts its
    /// cross-fade and emits the unload of the scene it leaves; a cross-fade
    /// counts up and, on reaching the transition duration, activates the
    /// target and emits its load; an active scene is left alone.
    pub fn tick(&mut self) -> (event: TransitionEvent)
        requires
            old(self).wf(),
        ensures
            final(self).wf(),
            *final(self) == spec_tick_state(*old(self)),
            event == spec_tick_event(*old(self)),
    {
        match *self {
            SceneState::ForceTransition(from, to) => {
                *self = SceneState::Transitioning(from, to, 0);
                TransitionEvent::Unload(from)
            },
            SceneState::Transitioning(from, to, n) => {
                if n + 1 == TICKS_PER_TRANSITION {
                    *self = SceneState::Active(to);
                    TransitionEvent::Load(to)
                } else {
                    *self = SceneState::Transitioning(from, to, n + 1);
                    TransitionEvent::Idle
                }
            },
            SceneState::Active(_) => TransitionEvent::Idle,
        }
    }

    /// Cross-fade opacities of the outgoing and incoming backgrounds, in
    /// fifteenths: a fully shown scene keeps the outgoing layer opaque, and a
    /// cross-fade moves opacity from the outgoing to the incoming layer as
    /// its counter advances. The two always sum to the transition duration.
    pub fn fade_alphas(&self) -> (r: (u8, u8))
        requires
            self.wf(),
        ensures
            r.0 + r.1 == TICKS_PER_TRANSITION,
            match *self {
                SceneState::Transitioning(_, _, n) => r
                    == (((TICKS_PER_TRANSITION - n) as u8), n),
                _ => r == ((TICKS_PER_TRANSITION, 0u8)),
            },
    {
        match *self {
            SceneState::Transitioning(_, _, n) => (TICKS_PER_TRANSITION - n, n),
            _ => (TICKS_PER_TRANSITION, 0),
        }
    }
}

/// The engine's state after `n` ticks.
pub open spec fn spec_tick_iter(s: SceneState, n: nat) -> SceneState
    decreases n,
{
    if n == 0 {
        s
    } else {
        spec_tick_state(spec_tick_iter(s, (n - 1) as nat))
    }
}

/// While a cross-fade runs, each tick only advances its counter.
proof fn lemma_ticks_advance_counter(from: SceneId, to: SceneId, k: nat)
    requires
        from != to,
        k < TICKS_PER_TRANSITION,
    ensures
        spec_tick_iter(SceneState::Transitioning(from, to, 0), k)
            == SceneState::Transitioning(from, to, k as u8),
    decreases k,
{
    if k > 0 {
        lemma_ticks_advance_counter(from, to, (k - 1) as nat);
    }
}

/// Each completed transition loads its target exactly once: across the
/// fifteen ticks of a fresh cross-fade, every tick but the last is silent,
/// and the last emits the one load of the target scene.
pub proof fn lemma_one_load_per_transition(from: SceneId, to: SceneId)
    requires
        from != to,
    ensures
        spec_tick_event(
            spec_tick_iter(
                SceneState::Transitioning(from, to, 0),
                (TICKS_PER_TRANSITION - 1) as nat,
            ),
        ) == TransitionEvent::Load(to),
        forall|k: nat|
            k < TICKS_PER_TRANSITION - 1 ==> spec_tick_event(
                spec_tick_iter(SceneState::Transitioning(from, to, 0), k),
            ) == TransitionEvent::Idle,
{
    assert forall|k: nat| k < TICKS_PER_TRANSITION - 1 implies spec_tick_event(
        spec_tick_iter(SceneState::Transitioning(from, to, 0), k),
    ) == TransitionEvent::Idle by {
        lemma_ticks_advance_counter(from, to, k);
    }
    lemma_ticks_advance_counter(from, to, (TICKS_PER_TRANSITION - 1) as nat);
}

/// A freshly started transition completes after exactly the transition
/// duration: fifteen ticks after entering `Transitioning(from, to, 0)` the
/// engine is `Active(to)`, and on no earlier tick.
pub proof fn lemma_transition_completes(from: SceneId, to: SceneId)
    requires
        from != to,
    ensures
        spec_tick_iter(SceneState::Transitioning(from, to, 0), TICKS_PER_TRANSITION as nat)
            == SceneState::Active(to),
        forall|k: nat|
            k < TICKS_PER_TRANSITION ==> spec_tick_iter(SceneState::Transitioning(from, to, 0), k)
                != SceneState::Active(to),
{
    assert forall|k: nat| k < TICKS_PER_TRANSITION implies spec_tick_iter(
        SceneState::Transitioning(from, to, 0),
        k,
    ) != SceneState::Active(to) by {
        lemma_ticks_advance_counter(from, to, k);
    }
    lemma_ticks_advance_counter(from, to, (TICKS_PER_TRANSITION - 1) as nat);
}

} // verus!
