//! The scene's mutable state and the pointer event router.
//!
//! Entities are slots in a registry; each carries a world position, a
//! rotation about the vertical axis, a pickable flag and an optional spin
//! amplitude. The router turns one raw pointer sample per frame into at most
//! one typed event and keeps the drag-sequence invariant: while an entity is
//! being dragged its pickable flag is absent, so it can never become a new
//! drag target or its own drop target; the flag returns with the terminal
//! event.

use vstd::prelude::*;
use vstd::math::abs;
use crate::fixed::sat_add;
use crate::fixed::sat_add_i64;
use crate::fixed::sat_sub;
use crate::fixed::sat_sub_i64;
use crate::spin::HALF_PI_ANGLE;
use crate::spin::SPIN_EPSILON;
use crate::spin::decay_amplitude;
use crate::spin::decay_step;
use crate::spin::lemma_decay_monotone;

verus! {

/// One scene object: a world transform plus the optional interaction tags.
/// Coordinates are fixed-point world units (1000 units per one), the rotation
/// and the spin amplitude fixed-point radians.
#[derive(Clone, Copy)]
pub struct Entity {
    pub pos_x: i64,
    pub pos_y: i64,
    pub pos_z: i64,
    pub rot: i64,
    pub pickable: bool,
    pub spin: Option<i64>,
}

impl Entity {
    /// A spin amplitude never exceeds the quarter turn a drop starts it at.
    pub open spec fn wf(self) -> bool {
        match self.spin {
            Option::Some(a) => -HALF_PI_ANGLE <= a <= HALF_PI_ANGLE,
            Option::None => true,
        }
    }
}

/// Whether a drag sequence is in progress, and on which entity.
#[derive(Clone, Copy, Debug, PartialEq, Eq, Structural)]
pub enum DragState {
    Idle,
    Dragging { entity: usize },
}

/// One frame's raw pointer sample: the primary button's state, the pickable
/// entity under the pointer (resolved by the engine's ray cast), and the
/// device-space motion since the previous frame, in fixed-point units.
#[derive(Clone, Copy)]
pub struct PointerSample {
    pub button_down: bool,
    pub hit: Option<usize>,
    pub dx: i64,
    pub dy: i64,
}

/// The typed event the router derives from one pointer sample. A press-drag
/// sequence emits exactly one `DragStart` and exactly one terminal event,
/// `DragEnd` or `DropOn`, never both and never neither.
#[derive(Clone, Copy, Debug, PartialEq, Eq, Structural)]
pub enum PointerEvent {
    DragStart { entity: usize },
    Drag { entity: usize, dx: i64, dy: i64 },
    DragEnd { entity: usize },
    DropOn { dropped: usize, target: usize },
}

/// Whether the sample's hit names a live, currently pickable entity.
pub open spec fn valid_hit(ents: Seq<Entity>, hit: Option<usize>) -> bool {
    match hit {
        Option::Some(e) => e < ents.len() && ents[e as int].pickable,
        Option::None => false,
    }
}

/// The registry with one entity's pickable flag rewritten.
pub open spec fn set_pickable(ents: Seq<Entity>, i: int, p: bool) -> Seq<Entity> {
    ents.update(i, Entity { pickable: p, ..ents[i] })
}

/// The router as a pure transition function: from the registry, the drag
/// state and one pointer sample to the new registry, the new drag state and
/// the event of this frame.
///
/// While idle, a press over a pickable entity starts a drag and removes that
/// entity's pickable flag. While dragging, a held button continues the drag;
/// a release resolves to `DropOn` when the pointer is over a different, live,
/// pickable entity, and to `DragEnd` in every other case — over empty space,
/// over a non-pickable surface, and over the dragged entity itself. Either
/// terminal restores the dragged entity's pickable flag.
pub open spec fn route_model(ents: Seq<Entity>, drag: DragState, s: PointerSample) -> (
    Seq<Entity>,
    DragState,
    Option<PointerEvent>,
) {
    match drag {
        DragState::Idle => {
            if s.button_down && valid_hit(ents, s.hit) {
                let e = s.hit->Some_0;
                (
                    set_pickable(ents, e as int, false),
                    DragState::Dragging { entity: e },
                    Option::Some(PointerEvent::DragStart { entity: e }),
                )
            } else {
                (ents, drag, Option::None)
            }
        },
        DragState::Dragging { entity } => {
            if s.button_down {
                (ents, drag, Option::Some(PointerEvent::Drag { entity, dx: s.dx, dy: s.dy }))
            } else {
                let restored = set_pickable(ents, entity as int, true);
                let ev = match s.hit {
                    Option::Some(t) => if t != entity && t < ents.len() && ents[t as int].pickable {
                        PointerEvent::DropOn { dropped: entity, target: t }
                    } else {
                        PointerEvent::DragEnd { entity }
                    },
                    Option::None => PointerEvent::DragEnd { entity },
                };
                (restored, DragState::Idle, Option::Some(ev))
            }
        },
    }
}

/// The scene's state: the entity registry and the drag sequence tracker.
pub struct World {
    pub ents: Vec<Entity>,
    pub drag: DragState,
}

impl World {
    /// The drag-sequence invariant and per-entity well-formedness: a dragged
    /// entity exists and is not pickable while its sequence runs.
    pub open spec fn wf(self) -> bool {
        &&& match self.drag {
            DragState::Idle => true,
            DragState::Dragging { entity } => entity < self.ents.len()
                && !self.ents@[entity as int].pickable,
        }
        &&& forall|i: int| 0 <= i < self.ents.len() ==> (#[trigger] self.ents@[i]).wf()
    }

    /// An empty scene with no drag in progress.
    pub fn new() -> (w: World)
        ensures
            w.ents@.len() == 0,
            w.drag == DragState::Idle,
            w.wf(),
    {
        World { ents: Vec::new(), drag: DragState::Idle }
    }

    /// Adds an entity to the registry and returns its identifier.
    pub fn add_entity(&mut self, e: Entity) -> (id: usize)
        requires
            old(self).wf(),
            e.wf(),
        ensures
            final(self).ents@ == old(self).ents@.push(e),
            final(self).drag == old(self).drag,
            id == old(self).ents@.len(),
            final(self).wf(),
    {
        let id = self.ents.len();
        self.ents.push(e);
        id
    }

    /// Routes one pointer sample: exactly the transition `route_model` makes,
    /// stated again piecewise so each event pins the state it leaves behind.
    pub fn route(&mut self, s: &PointerSample) -> (ev: Option<PointerEvent>)
        requires
            old(self).wf(),
        ensures
            (final(self).ents@, final(self).drag, ev) == route_model(
                old(self).ents@,
                old(self).drag,
                *s,
            ),
            final(self).wf(),
            final(self).ents@.len() == old(self).ents@.len(),
            // A drag start claims the entity: it stops being pickable.
            ev matches Option::Some(PointerEvent::DragStart { entity }) ==> final(self).drag
                == (DragState::Dragging { entity }) && !final(self).ents@[entity as int].pickable,
            // A continuing drag keeps the claim.
            ev matches Option::Some(PointerEvent::Drag { entity, dx, dy }) ==> final(self).drag
                == (DragState::Dragging { entity }) && !final(self).ents@[entity as int].pickable
                && dx == s.dx && dy == s.dy,
            // Either terminal event ends the sequence and restores the flag.
            ev matches Option::Some(PointerEvent::DragEnd { entity }) ==> final(self).drag
                == DragState::Idle && entity < final(self).ents@.len() && final(self).ents@[entity as int].pickable,
            ev matches Option::Some(PointerEvent::DropOn { dropped, target }) ==> final(self).drag
                == DragState::Idle && dropped < final(self).ents@.len()
                && target < final(self).ents@.len() && dropped != target
                && final(self).ents@[dropped as int].pickable,
            // A release over the dragged entity itself is never a drop.
            (old(self).drag == (DragState::Dragging { entity: s.hit->Some_0 }) && !s.button_down
                && s.hit is Some) ==> ev == Option::Some(
                PointerEvent::DragEnd { entity: s.hit->Some_0 },
            ),
    {
        match self.drag {
            DragState::Idle => {
                if s.button_down {
                    match s.hit {
                        Option::Some(e) => {
                            if e < self.ents.len() && self.ents[e].pickable {
                                let claimed = Entity { pickable: false, ..self.ents[e] };
                                self.ents[e] = claimed;
                                self.drag = DragState::Dragging { entity: e };
                                Option::Some(PointerEvent::DragStart { entity: e })
                            } else {
                                Option::None
                            }
                        },
                        Option::None => Option::None,
                    }
                } else {
                    Option::None
                }
            },
            DragState::Dragging { entity } => {
                if s.button_down {
                    Option::Some(PointerEvent::Drag { entity, dx: s.dx, dy: s.dy })
                } else {
                    let released = Entity { pickable: true, ..self.ents[entity] };
                    self.ents[entity] = released;
                    self.drag = DragState::Idle;
                    match s.hit {
                        Option::Some(t) => {
                            if t != entity && t < self.ents.len() && self.ents[t].pickable {
                                Option::Some(PointerEvent::DropOn { dropped: entity, target: t })
                            } else {
                                Option::Some(PointerEvent::DragEnd { entity })
                            }
                        },
                        Option::None => Option::Some(PointerEvent::DragEnd { entity }),
                    }
                }
            },
        }
    }
}

/// An entity after one `Drag` event: the device delta moves it in the
/// screen-parallel plane, x along the device x axis and y against the device
/// y axis (device y grows downward). Depth is untouched, so the entity never
/// drifts toward or away from the camera during one drag sequence. Positions
/// are not clamped to the scene; only the representable range bounds them.
pub open spec fn dragged_entity(e: Entity, dx: int, dy: int) -> Entity {
    Entity {
        pos_x: sat_add(e.pos_x as int, dx) as i64,
        pos_y: sat_sub(e.pos_y as int, dy) as i64,
        ..e
    }
}

/// An entity spinning afresh with this amplitude. A drop on an entity that is
/// already spinning overwrites its amplitude — one animation slot per entity.
pub open spec fn spun_entity(e: Entity, amplitude: i64) -> Entity {
    Entity { spin: Option::Some(amplitude), ..e }
}

/// An entity after one animator tick. A spinning entity shows its amplitude
/// as its rotation, then the amplitude decays; once the decayed amplitude is
/// at rest the spin ends and the rotation is reset exactly to identity, never
/// left at a near-zero tilt.
pub open spec fn spin_step_entity(e: Entity) -> Entity {
    match e.spin {
        Option::Some(a) => {
            let a2 = decay_step(a as int);
            if abs(a2) <= SPIN_EPSILON {
                Entity { rot: 0, spin: Option::None, ..e }
            } else {
                Entity { rot: a, spin: Option::Some(a2 as i64), ..e }
            }
        },
        Option::None => e,
    }
}

impl World {
    /// Applies one `Drag` event: the dragged entity follows the pointer.
    pub fn apply_drag(&mut self, entity: usize, dx: i64, dy: i64)
        requires
            old(self).wf(),
            entity < old(self).ents@.len(),
        ensures
            final(self).ents@ == old(self).ents@.update(
                entity as int,
                dragged_entity(old(self).ents@[entity as int], dx as int, dy as int),
            ),
            final(self).drag == old(self).drag,
            final(self).wf(),
    {
        let e = self.ents[entity];
        let moved = Entity {
            pos_x: sat_add_i64(e.pos_x, dx),
            pos_y: sat_sub_i64(e.pos_y, dy),
            ..e
        };
        self.ents[entity] = moved;
    }

    /// Applies one `DropOn` event: the dropped entity and the entity it
    /// landed on both start spinning in the same frame, with opposite-signed
    /// amplitudes of one quarter turn each.
    pub fn apply_drop(&mut self, dropped: usize, target: usize)
        requires
            old(self).wf(),
            dropped < old(self).ents@.len(),
            target < old(self).ents@.len(),
            dropped != target,
        ensures
            final(self).ents@ == old(self).ents@.update(
                dropped as int,
                spun_entity(old(self).ents@[dropped as int], HALF_PI_ANGLE),
            ).update(
                target as int,
                spun_entity(old(self).ents@[target as int], (-HALF_PI_ANGLE) as i64),
            ),
            final(self).ents@[dropped as int].spin == Option::Some(HALF_PI_ANGLE),
            final(self).ents@[target as int].spin == Option::Some((-HALF_PI_ANGLE) as i64),
            final(self).drag == old(self).drag,
            final(self).wf(),
    {
        let d = self.ents[dropped];
        self.ents[dropped] = Entity { spin: Option::Some(HALF_PI_ANGLE), ..d };
        let t = self.ents[target];
        self.ents[target] = Entity { spin: Option::Some(-HALF_PI_ANGLE), ..t };
    }

    /// One animator tick over the whole registry: every spinning entity takes
    /// one `spin_step_entity` step; everything else is untouched.
    pub fn spin_tick(&mut self)
        requires
            old(self).wf(),
        ensures
            final(self).ents@ == old(self).ents@.map_values(|e: Entity| spin_step_entity(e)),
            final(self).drag == old(self).drag,
            final(self).wf(),
    {
        let ghost orig = self.ents@;
        let n = self.ents.len();
        let mut i: usize = 0;
        while i < n
            invariant
                self.wf(),
                n == self.ents@.len(),
                orig.len() == n,
                i <= n,
                self.drag == old(self).drag,
                forall|j: int| 0 <= j < i ==> self.ents@[j] == spin_step_entity(#[trigger] orig[j]),
                forall|j: int| i <= j < n ==> self.ents@[j] == #[trigger] orig[j],
            decreases n - i,
        {
            let e = self.ents[i];
            match e.spin {
                Option::Some(a) => {
                    proof {
                        lemma_decay_monotone(a as int);
                    }
                    let a2 = decay_amplitude(a);
                    let stepped = if a2 <= SPIN_EPSILON && a2 >= -SPIN_EPSILON {
                        Entity { rot: 0, spin: Option::None, ..e }
                    } else {
                        Entity { rot: a, spin: Option::Some(a2), ..e }
                    };
                    self.ents[i] = stepped;
                },
                Option::None => {},
            }
            i = i + 1;
        }
        proof {
            assert(self.ents@ =~= orig.map_values(|e: Entity| spin_step_entity(e)));
        }
    }
}

/// Whether a drag sequence is running in this state.
pub open spec fn in_drag(d: DragState) -> bool {
    match d {
        DragState::Dragging { .. } => true,
        DragState::Idle => false,
    }
}

/// Whether this frame's event opens a drag sequence.
pub open spec fn is_drag_start(ev: Option<PointerEvent>) -> bool {
    match ev {
        Option::Some(PointerEvent::DragStart { .. }) => true,
        _ => false,
    }
}

/// Whether this frame's event is a terminal event, `DragEnd` or `DropOn`.
pub open spec fn is_terminal(ev: Option<PointerEvent>) -> bool {
    match ev {
        Option::Some(PointerEvent::DragEnd { .. }) => true,
        Option::Some(PointerEvent::DropOn { .. }) => true,
        _ => false,
    }
}

/// Exactly one `DragStart` and exactly one terminal event per press-drag
/// sequence: a routed frame emits `DragStart` precisely when it moves the
/// router from idle into a sequence, and a terminal event precisely when it
/// moves it back out, so along any run of frames the starts and terminals
/// alternate, one of each per sequence — never both in one frame, never a
/// second of either before the other.
pub proof fn lemma_one_start_one_terminal(ents: Seq<Entity>, drag: DragState, s: PointerSample)
    ensures
        is_drag_start(route_model(ents, drag, s).2) <==> (!in_drag(drag) && in_drag(
            route_model(ents, drag, s).1,
        )),
        is_terminal(route_model(ents, drag, s).2) <==> (in_drag(drag) && !in_drag(
            route_model(ents, drag, s).1,
        )),
        !(is_drag_start(route_model(ents, drag, s).2) && is_terminal(
            route_model(ents, drag, s).2,
        )),
{
}

/// No self-drop: a release whose hit resolves to the dragged entity itself
/// routes to `DragEnd`, never to `DropOn`.
pub proof fn lemma_no_self_drop(ents: Seq<Entity>, e: usize, s: PointerSample)
    requires
        !s.button_down,
        s.hit == Option::Some(e),
    ensures
        route_model(ents, DragState::Dragging { entity: e }, s).2 == Option::Some(
            PointerEvent::DragEnd { entity: e },
        ),
{
}

/// Pickable exclusivity: once a drag sequence holds an entity whose pickable
/// flag is gone, every routed frame with the button still down keeps the
/// sequence and keeps the flag gone; the frame that releases the button ends
/// the sequence with exactly one terminal event on that entity — `DropOn`
/// only ever onto a different entity — and restores the flag immediately.
pub proof fn lemma_pickable_exclusivity(ents: Seq<Entity>, e: usize, s: PointerSample)
    requires
        e < ents.len(),
        !ents[e as int].pickable,
    ensures
        s.button_down ==> route_model(ents, DragState::Dragging { entity: e }, s) == (
            ents,
            DragState::Dragging { entity: e },
            Option::Some(PointerEvent::Drag { entity: e, dx: s.dx, dy: s.dy }),
        ),
        !s.button_down ==> {
            let routed = route_model(ents, DragState::Dragging { entity: e }, s);
            &&& routed.0 == set_pickable(ents, e as int, true)
            &&& routed.0[e as int].pickable
            &&& routed.1 == DragState::Idle
            &&& match routed.2 {
                Option::Some(PointerEvent::DragEnd { entity }) => entity == e,
                Option::Some(PointerEvent::DropOn { dropped, target }) => dropped == e && target
                    != e,
                _ => false,
            }
        },
{
}

} // verus!
