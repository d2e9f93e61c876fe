use vstd::prelude::*;

use crate::registry::{
    AnimatingEntity, Animations, entities_wf, entity_pos, find_entity, find_in_pool, find_named, named_has, named_pos,
    named_wf, tracks,
};
use crate::types::{AnimationDirection, AnimationName, AnimationType, Drive, EntityId, Handles, Position, SpriteState};

verus! {

/// Settings of the host: how many pixels make a meter, for distance-driven animations.
#[derive(Clone, Copy, Debug, PartialEq, Eq, Structural)]
pub struct AnimationsConfig {
    pub pixels_per_meter: u64,
}

/// Entities whose removal from the registry waits for the end of the tick.
#[derive(Debug)]
pub struct EntitesToRemove(pub Vec<EntityId>);

/// A request to play the named animation on an entity.
#[derive(Debug)]
pub struct AnimationEvent(pub AnimationName, pub EntityId);

/// A request to rewind an entity's current animation.
#[derive(Clone, Copy, Debug, PartialEq, Eq, Structural)]
pub struct ResetAnimationEvent(pub EntityId);

/// A request to spawn the named effect at a position.
#[derive(Debug)]
pub struct FXAnimationEvent(pub AnimationName, pub Position);

/// What the host world holds of an entity that the registry needs each tick.
#[derive(Clone, Copy, Debug, PartialEq, Eq, Structural)]
pub struct WorldEntity {
    pub sprite: SpriteState,
    pub direction: AnimationDirection,
    pub position: Position,
}

/// How a play request went.
#[derive(Clone, Copy, Debug, PartialEq, Eq, Structural)]
pub enum PlayOutcome {
    /// The animation was playing already; it goes on.
    Continued,
    /// A blocking animation held the request off.
    Rejected,
    /// The entity switched to the animation: draw with these handles.
    Switched(Handles),
}

/// How one entity fared in a tick.
#[derive(Clone, Copy, Debug, PartialEq, Eq, Structural)]
pub enum AdvanceOutcome {
    /// Nothing was advanced.
    Skipped,
    /// The current animation advanced.
    Advanced,
    /// The animation ended; the entity stays, idle.
    Finished,
    /// The effect ended: remove the entity and despawn it.
    Despawn,
    /// The entity is gone from the world: remove it.
    Gone,
}

impl AdvanceOutcome {
    /// Whether the entity is to leave the registry at the end of the tick.
    pub open spec fn removes(self) -> bool {
        self is Despawn || self is Gone
    }
}

/// Whether `name` is not what `e` plays now.
pub open spec fn is_new_for(e: AnimatingEntity, name: Seq<char>) -> bool {
    e.curr_animation is None || e.current().name_spec() != name
}

/// Whether a request for `next` may replace what `e` plays now: always, unless a blocking
/// animation plays; then only one of higher priority, or any once a pose's blocking time is over.
pub open spec fn accepts(e: AnimatingEntity, next: AnimationType) -> bool {
    !e.in_blocking_animation || match e.current() {
        AnimationType::Timed(a, _) => next.priority_spec() > a.blocking_priority,
        AnimationType::SingleFrame(a, _) => next.priority_spec() > a.blocking_priority || a.blocking_finished,
        _ => false,
    }
}

/// The direction fields after a request made while the entity faces `direction`: the last valid
/// direction follows a change to anything but `Still`.
pub open spec fn turned(e: AnimatingEntity, e2: AnimatingEntity, direction: AnimationDirection) -> bool {
    &&& e2.curr_direction == direction
    &&& e2.last_valid_direction == (if direction != e.curr_direction && direction != AnimationDirection::Still {
        direction
    } else {
        e.last_valid_direction
    })
}

/// A request to play `name` took `e` to `e2` and the sprite from `s` to `s2`.
pub open spec fn played(
    e: AnimatingEntity,
    e2: AnimatingEntity,
    s: SpriteState,
    s2: SpriteState,
    name: Seq<char>,
    direction: AnimationDirection,
    handles: Handles,
    outcome: PlayOutcome,
) -> bool {
    let j = named_pos(e.animations@, name);
    let next = e.animations@[j];
    if is_new_for(e, name) && !accepts(e, next) {
        &&& e2 == e
        &&& s2 == s
        &&& outcome == PlayOutcome::Rejected
    } else {
        &&& e2.entity == e.entity
        &&& e2.fx_animation == e.fx_animation
        &&& e2.curr_animation_called
        &&& turned(e, e2, direction)
        &&& if is_new_for(e, name) {
            &&& e2.animations@ == match e.curr_animation {
                Some(c) => e.animations@.update(c as int, e.animations@[c as int].initial()),
                None => e.animations@,
            }
            &&& e2.curr_animation == Some(j as usize)
            &&& e2.in_blocking_animation == next.blocking_spec()
            &&& s2.index == next.sprite_index_spec(e.last_valid_direction)
            &&& s2.flip_x == s.flip_x
            &&& s2.flip_y == s.flip_y
            &&& outcome == PlayOutcome::Switched(handles)
        } else {
            &&& e2.animations == e.animations
            &&& e2.curr_animation == e.curr_animation
            &&& e2.in_blocking_animation == e.in_blocking_animation
            &&& s2 == s
            &&& outcome == PlayOutcome::Continued
        }
    }
}

/// One tick took `e` to `e2` and its world entry from `w` to `w2`.
pub open spec fn advanced(
    e: AnimatingEntity,
    e2: AnimatingEntity,
    w: Option<WorldEntity>,
    w2: Option<WorldEntity>,
    delta: u64,
    pixels_per_meter: u64,
    outcome: AdvanceOutcome,
) -> bool {
    match w {
        None => {
            &&& e2 == e
            &&& w2 == w
            &&& outcome == (if e.fx_animation {
                AdvanceOutcome::Skipped
            } else {
                AdvanceOutcome::Gone
            })
        },
        Some(we) => if !e.curr_animation_called || e.curr_animation is None {
            &&& e2 == e
            &&& w2 == w
            &&& outcome == AdvanceOutcome::Skipped
        } else {
            let c = e.curr_animation->Some_0 as int;
            let drive = Drive { delta, position: we.position, pixels_per_meter };
            let (a2, s2, go) = e.animations@[c].cycled(we.sprite, e.last_valid_direction, drive);
            &&& e2.animations@ == e.animations@.update(c, a2)
            &&& e2.curr_animation == e.curr_animation
            &&& w2 == Some(WorldEntity { sprite: s2, ..we })
            &&& e2.entity == e.entity
            &&& e2.fx_animation == e.fx_animation
            &&& e2.curr_direction == e.curr_direction
            &&& e2.last_valid_direction == e.last_valid_direction
            &&& if go {
                &&& e2.in_blocking_animation == e.in_blocking_animation
                &&& e2.curr_animation_called == e.curr_animation_called
                &&& outcome == AdvanceOutcome::Advanced
            } else {
                &&& !e2.in_blocking_animation
                &&& !e2.curr_animation_called
                &&& outcome == (if e.fx_animation {
                    AdvanceOutcome::Despawn
                } else {
                    AdvanceOutcome::Finished
                })
            }
        },
    }
}

proof fn lemma_update_keeps_named_wf(list: Seq<AnimationType>, c: int, a: AnimationType)
    requires
        named_wf(list),
        0 <= c < list.len(),
        a.wf(),
        !(a is Empty),
        a.name_spec() == list[c].name_spec(),
    ensures
        named_wf(list.update(c, a)),
{
    let l = list.update(c, a);
    assert forall|i: int, j: int| 0 <= i < l.len() && 0 <= j < l.len() && i != j implies
        #[trigger] l[i].name_spec() != #[trigger] l[j].name_spec() by {
        assert(l[i].name_spec() == list[i].name_spec());
        assert(l[j].name_spec() == list[j].name_spec());
    }
}

impl AnimatingEntity {
    /// Applies a request to play the animation named `name`, facing `direction`.
    pub fn play(&mut self, name: &AnimationName, direction: &AnimationDirection, sprite: &mut SpriteState, handles: Handles) -> (r: PlayOutcome)
        requires
            old(self).wf(),
            named_has(old(self).animations@, name@),
        ensures
            final(self).wf(),
            played(*old(self), *final(self), *old(sprite), *final(sprite), name@, *direction, handles, r),
    {
        let j = match find_named(&self.animations, name) {
            Some(j) => j,
            None => vstd::pervasive::unreached(),
        };
        let is_new = match self.curr_animation {
            Some(c) => !(*self.animations[c].get_name() == *name),
            None => true,
        };
        let mut outcome = PlayOutcome::Continued;
        if is_new {
            let (blocking, new_priority) = self.animations[j].blocking();
            let index = self.animations[j].sprite_index(&self.last_valid_direction);
            if self.in_blocking_animation {
                let accepted = match self.curr_animation {
                    Some(c) => match &self.animations[c] {
                        AnimationType::Timed(a, _) => new_priority > a.blocking_priority,
                        AnimationType::SingleFrame(a, _) => new_priority > a.blocking_priority || a.blocking_finished,
                        _ => false,
                    },
                    None => false,
                };
                if !accepted {
                    return PlayOutcome::Rejected;
                }
            }
            if let Some(c) = self.curr_animation {
                let ghost before = self.animations@;
                self.animations[c].reset_animation();
                proof {
                    lemma_update_keeps_named_wf(before, c as int, before[c as int].initial());
                    assert(self.animations@ =~= before.update(c as int, before[c as int].initial()));
                }
            }
            self.curr_animation = Some(j);
            self.in_blocking_animation = blocking;
            sprite.index = index;
            outcome = PlayOutcome::Switched(handles);
        }
        self.curr_animation_called = true;
        if *direction != self.curr_direction {
            self.curr_direction = *direction;
            if !direction.is_still() {
                self.last_valid_direction = *direction;
            }
        }
        outcome
    }

    /// Advances the current animation by one tick, if a request started it and the entity is
    /// still in the world (`world` is its entry, `None` when it is gone).
    pub fn advance(&mut self, world: &mut Option<WorldEntity>, delta: u64, pixels_per_meter: u64) -> (r: AdvanceOutcome)
        requires
            old(self).wf(),
        ensures
            final(self).wf(),
            advanced(*old(self), *final(self), *old(world), *final(world), delta, pixels_per_meter, r),
    {
        let mut we = match *world {
            None => {
                return if self.fx_animation {
                    AdvanceOutcome::Skipped
                } else {
                    AdvanceOutcome::Gone
                };
            },
            Some(we) => we,
        };
        if !self.curr_animation_called {
            return AdvanceOutcome::Skipped;
        }
        let c = match self.curr_animation {
            Some(c) => c,
            None => {
                return AdvanceOutcome::Skipped;
            },
        };
        let drive = Drive { delta, position: we.position, pixels_per_meter };
        let ghost before = self.animations@;
        let going = self.animations[c].cycle_animation(&mut we.sprite, &self.last_valid_direction, &drive);
        proof {
            before[c as int].lemma_cycled_keeps(we.sprite, self.last_valid_direction, drive);
            assert(self.animations@ =~= before.update(c as int, self.animations@[c as int]));
            lemma_update_keeps_named_wf(before, c as int, self.animations@[c as int]);
        }
        *world = Some(we);
        if going.is_some() {
            AdvanceOutcome::Advanced
        } else {
            self.in_blocking_animation = false;
            self.curr_animation_called = false;
            if self.fx_animation {
                AdvanceOutcome::Despawn
            } else {
                AdvanceOutcome::Finished
            }
        }
    }
}

impl AdvanceOutcome {
    pub fn is_removal(&self) -> (r: bool)
        ensures
            r == self.removes(),
    {
        match self {
            AdvanceOutcome::Despawn => true,
            AdvanceOutcome::Gone => true,
            _ => false,
        }
    }
}

impl EntitesToRemove {
    pub fn new() -> (r: EntitesToRemove)
        ensures
            r.0@.len() == 0,
    {
        EntitesToRemove(Vec::new())
    }

    /// Queues an entity for removal at the end of the tick.
    pub fn push(&mut self, entity: EntityId)
        ensures
            final(self).0@ == old(self).0@.push(entity),
    {
        self.0.push(entity);
    }
}

fn contains_id(ids: &Vec<EntityId>, entity: EntityId) -> (r: bool)
    ensures
        r == ids@.contains(entity),
{
    let mut i: usize = 0;
    while i < ids.len()
        invariant
            i <= ids@.len(),
            forall|j: int| 0 <= j < i ==> ids@[j] != entity,
        decreases ids.len() - i,
    {
        if ids[i] == entity {
            assert(ids@[i as int] == entity);
            return true;
        }
        i += 1;
    }
    false
}

proof fn lemma_set_keeps_entities_wf(entities: Seq<AnimatingEntity>, i: int, e: AnimatingEntity)
    requires
        entities_wf(entities),
        0 <= i < entities.len(),
        e.wf(),
        e.entity == entities[i].entity,
    ensures
        entities_wf(entities.update(i, e)),
        forall|id: EntityId| tracks(entities, id) ==> entity_pos(entities.update(i, e), id) == entity_pos(entities, id),
        forall|id: EntityId| tracks(entities, id) == tracks(entities.update(i, e), id),
{
    let l = entities.update(i, e);
    assert forall|a: int, b: int| 0 <= a < l.len() && 0 <= b < l.len() && a != b implies
        #[trigger] l[a].entity != #[trigger] l[b].entity by {
        assert(l[a].entity == entities[a].entity);
        assert(l[b].entity == entities[b].entity);
    }
    assert forall|id: EntityId| tracks(entities, id) == tracks(l, id) by {
        if tracks(entities, id) {
            let k = entity_pos(entities, id);
            assert(l[k].entity == id);
        }
        if tracks(l, id) {
            let k = entity_pos(l, id);
            assert(entities[k].entity == id);
        }
    }
    assert forall|id: EntityId| tracks(entities, id) implies entity_pos(l, id) == entity_pos(entities, id) by {
        let k = entity_pos(entities, id);
        let m = entity_pos(l, id);
        assert(l[k].entity == id);
        assert(entities[m].entity == id);
    }
}

impl Animations {
    /// Applies a request to play the named animation on a tracked entity that faces `direction`
    /// in the world; `sprite` is what the world draws for it. A new animation replaces the
    /// current one (which rewinds) unless a blocking one holds it off; see `played`.
    pub fn play_animation(
        &mut self,
        animation_name: &AnimationName,
        entity: EntityId,
        direction: &AnimationDirection,
        sprite: &mut SpriteState,
    ) -> (r: PlayOutcome)
        requires
            old(self).wf(),
            old(self).has_animation_spec(animation_name@),
            old(self).entity_has_spec(entity, animation_name@),
        ensures
            final(self).wf(),
            final(self).animations == old(self).animations,
            final(self).fx_animations == old(self).fx_animations,
            final(self).entities@.len() == old(self).entities@.len(),
            forall|k: int|
                0 <= k < old(self).entities@.len() && k != entity_pos(old(self).entities@, entity)
                    ==> final(self).entities@[k] == old(self).entities@[k],
            forall|id: EntityId| #[trigger] final(self).tracks_spec(id) == old(self).tracks_spec(id),
            played(
                old(self).entity_spec(entity),
                final(self).entity_spec(entity),
                *old(sprite),
                *final(sprite),
                animation_name@,
                *direction,
                old(self).template(animation_name@).handles,
                r,
            ),
    {
        let i = match find_entity(&self.entities, entity) {
            Some(i) => i,
            None => vstd::pervasive::unreached(),
        };
        let handles = match find_in_pool(&self.animations, animation_name) {
            Some(p) => self.animations[p].handles,
            None => vstd::pervasive::unreached(),
        };
        assert(self.entities@[i as int].wf());
        let r = self.entities[i].play(animation_name, direction, sprite, handles);
        proof {
            lemma_set_keeps_entities_wf(old(self).entities@, i as int, self.entities@[i as int]);
            assert(self.entities@ =~= old(self).entities@.update(i as int, self.entities@[i as int]));
        }
        r
    }

    /// Advances every tracked entity by one tick. `world` holds, in the order of `entities`, each
    /// entity's entry in the host world (`None` for one that is gone); `delta` is in nanoseconds.
    /// Entities to remove at the end of the tick are queued on `to_remove`.
    pub fn advance_entities(
        &mut self,
        world: &mut Vec<Option<WorldEntity>>,
        delta: u64,
        pixels_per_meter: u64,
        to_remove: &mut EntitesToRemove,
    ) -> (r: Vec<AdvanceOutcome>)
        requires
            old(self).wf(),
            old(world)@.len() == old(self).entities@.len(),
        ensures
            final(self).wf(),
            final(self).animations == old(self).animations,
            final(self).fx_animations == old(self).fx_animations,
            final(self).entities@.len() == old(self).entities@.len(),
            final(world)@.len() == old(world)@.len(),
            r@.len() == old(self).entities@.len(),
            forall|i: int|
                0 <= i < r@.len() ==> advanced(
                    old(self).entities@[i],
                    #[trigger] final(self).entities@[i],
                    old(world)@[i],
                    final(world)@[i],
                    delta,
                    pixels_per_meter,
                    r@[i],
                ),
            forall|id: EntityId|
                #![trigger final(to_remove).0@.contains(id)]
                final(to_remove).0@.contains(id) <==> (old(to_remove).0@.contains(id) || exists|i: int|
                    0 <= i < r@.len() && old(self).entities@[i].entity == id && (#[trigger] r@[i]).removes()),
    {
        let mut r: Vec<AdvanceOutcome> = Vec::new();
        let mut i: usize = 0;
        while i < self.entities.len()
            invariant
                self.wf(),
                self.animations == old(self).animations,
                self.fx_animations == old(self).fx_animations,
                self.entities@.len() == old(self).entities@.len(),
                world@.len() == old(world)@.len(),
                old(world)@.len() == old(self).entities@.len(),
                i <= self.entities@.len(),
                r@.len() == i,
                forall|k: int| 0 <= k < self.entities@.len() ==> #[trigger] self.entities@[k].entity == old(self).entities@[k].entity,
                forall|k: int|
                    0 <= k < i ==> advanced(
                        old(self).entities@[k],
                        #[trigger] self.entities@[k],
                        old(world)@[k],
                        world@[k],
                        delta,
                        pixels_per_meter,
                        r@[k],
                    ),
                forall|k: int| i <= k < self.entities@.len() ==> #[trigger] self.entities@[k] == old(self).entities@[k],
                forall|k: int| i <= k < world@.len() ==> #[trigger] world@[k] == old(world)@[k],
                forall|id: EntityId|
                    #![trigger to_remove.0@.contains(id)]
                    to_remove.0@.contains(id) <==> (old(to_remove).0@.contains(id) || exists|k: int|
                        0 <= k < i && old(self).entities@[k].entity == id && (#[trigger] r@[k]).removes()),
            decreases self.entities.len() - i,
        {
            let mut w = world[i];
            assert(self.entities@[i as int].wf());
            let ghost before = self.entities@;
            let outcome = self.entities[i].advance(&mut w, delta, pixels_per_meter);
            proof {
                lemma_set_keeps_entities_wf(before, i as int, self.entities@[i as int]);
                assert(self.entities@ =~= before.update(i as int, self.entities@[i as int]));
            }
            world.set(i, w);
            let ghost q = to_remove.0@;
            let ghost r0 = r@;
            let ghost id_i = old(self).entities@[i as int].entity;
            if outcome.is_removal() {
                to_remove.push(self.entities[i].entity);
            }
            r.push(outcome);
            proof {
                assert(r@ == r0.push(outcome));
                assert forall|id: EntityId| #![trigger to_remove.0@.contains(id)]
                    to_remove.0@.contains(id) <==> (old(to_remove).0@.contains(id) || exists|k: int|
                        0 <= k < i + 1 && old(self).entities@[k].entity == id && (#[trigger] r@[k]).removes()) by {
                    let before = exists|k: int| 0 <= k < i && old(self).entities@[k].entity == id && (#[trigger] r0[k]).removes();
                    assert(q.contains(id) <==> (old(to_remove).0@.contains(id) || before));
                    if before {
                        let k = choose|k: int| 0 <= k < i && old(self).entities@[k].entity == id && (#[trigger] r0[k]).removes();
                        assert(r@[k] == r0[k]);
                    }
                    if exists|k: int| 0 <= k < i + 1 && old(self).entities@[k].entity == id && (#[trigger] r@[k]).removes() {
                        let k = choose|k: int| 0 <= k < i + 1 && old(self).entities@[k].entity == id && (#[trigger] r@[k]).removes();
                        if k < i {
                            assert(r0[k] == r@[k]);
                        } else {
                            assert(id == id_i && outcome.removes());
                        }
                    }
                    if outcome.removes() {
                        assert(to_remove.0@ == q.push(id_i));
                        if id == id_i {
                            assert(to_remove.0@[q.len() as int] == id);
                            assert(r@[i as int] == outcome);
                        }
                        if to_remove.0@.contains(id) && id != id_i {
                            let k = choose|k: int| 0 <= k < to_remove.0@.len() && to_remove.0@[k] == id;
                            assert(q[k] == id);
                        }
                        if q.contains(id) {
                            let k = choose|k: int| 0 <= k < q.len() && q[k] == id;
                            assert(to_remove.0@[k] == id);
                        }
                    } else {
                        assert(to_remove.0@ == q);
                    }
                }
            }
            i += 1;
        }
        r
    }

    /// Rewinds the current animation of a tracked entity and draws its first frame for
    /// `direction` on `sprite`.
    pub fn reset_entity_animation(&mut self, entity: EntityId, sprite: &mut SpriteState, direction: &AnimationDirection)
        requires
            old(self).wf(),
            old(self).tracks_spec(entity),
            old(self).entity_spec(entity).curr_animation is Some,
        ensures
            final(self).wf(),
            final(self).animations == old(self).animations,
            final(self).fx_animations == old(self).fx_animations,
            final(self).entities@.len() == old(self).entities@.len(),
            forall|k: int|
                0 <= k < old(self).entities@.len() && k != entity_pos(old(self).entities@, entity)
                    ==> final(self).entities@[k] == old(self).entities@[k],
            forall|id: EntityId| #[trigger] final(self).tracks_spec(id) == old(self).tracks_spec(id),
            ({
                let e = old(self).entity_spec(entity);
                let e2 = final(self).entity_spec(entity);
                let c = e.curr_animation->Some_0 as int;
                &&& e2.same_status(e)
                &&& e2.curr_animation == e.curr_animation
                &&& e2.animations@ == e.animations@.update(c, e.animations@[c].initial())
                &&& *final(sprite) == e.animations@[c].reset_rendered(*old(sprite), *direction)
                &&& final(sprite).index == e.animations@[c].initial().sprite_index_spec(*direction)
            }),
    {
        let i = match find_entity(&self.entities, entity) {
            Some(i) => i,
            None => vstd::pervasive::unreached(),
        };
        assert(self.entities@[i as int].wf());
        let c = match self.entities[i].curr_animation {
            Some(c) => c,
            None => vstd::pervasive::unreached(),
        };
        let ghost before = self.entities@[i as int].animations@;
        self.entities[i].animations[c].reset_and_render(sprite, direction);
        proof {
            assert(self.entities@[i as int].animations@ =~= before.update(c as int, before[c as int].initial()));
            before[c as int].lemma_cycled_keeps(*sprite, *direction, Drive { delta: 0, position: Position { x: 0, y: 0 }, pixels_per_meter: 0 });
            lemma_update_keeps_named_wf(before, c as int, before[c as int].initial());
            lemma_set_keeps_entities_wf(old(self).entities@, i as int, self.entities@[i as int]);
            assert(self.entities@ =~= old(self).entities@.update(i as int, self.entities@[i as int]));
        }
    }

    /// Drops the queued entities from the registry and empties the queue.
    pub fn remove_entities(&mut self, to_remove: &mut EntitesToRemove)
        requires
            old(self).wf(),
        ensures
            final(self).wf(),
            final(self).animations == old(self).animations,
            final(self).fx_animations == old(self).fx_animations,
            final(self).entities@ == old(self).entities@.filter(|e: AnimatingEntity| !old(to_remove).0@.contains(e.entity)),
            final(to_remove).0@.len() == 0,
    {
        let ghost keep = |e: AnimatingEntity| !old(to_remove).0@.contains(e.entity);
        let ghost all = self.entities@;
        let n = self.entities.len();
        let mut rest: Vec<AnimatingEntity> = Vec::new();
        std::mem::swap(&mut self.entities, &mut rest);
        let mut kept: Vec<AnimatingEntity> = Vec::new();
        let mut i: usize = 0;
        while rest.len() > 0
            invariant
                entities_wf(all),
                all.len() == n,
                i <= all.len(),
                rest@ == all.subrange(i as int, all.len() as int),
                kept@ == all.subrange(0, i as int).filter(keep),
                entities_wf(kept@),
                forall|a: int, b: int|
                    0 <= a < kept@.len() && i <= b < all.len() ==> #[trigger] kept@[a].entity != #[trigger] all[b].entity,
                keep == (|e: AnimatingEntity| !old(to_remove).0@.contains(e.entity)),
            decreases rest.len(),
        {
            let e = rest.remove(0);
            proof {
                assert(e == all[i as int]);
                assert(all.subrange(0, i as int + 1).drop_last() =~= all.subrange(0, i as int));
                assert(all.subrange(0, i as int + 1).last() == e);
                reveal(Seq::filter);
            }
            if !contains_id(&to_remove.0, e.entity) {
                let ghost k0 = kept@;
                kept.push(e);
                proof {
                    assert forall|a: int, b: int|
                        0 <= a < kept@.len() && 0 <= b < kept@.len() && a != b implies
                        #[trigger] kept@[a].entity != #[trigger] kept@[b].entity by {
                        if a == k0.len() {
                            assert(kept@[b] == k0[b]);
                        } else if b == k0.len() {
                            assert(kept@[a] == k0[a]);
                        }
                    }
                    assert forall|a: int| 0 <= a < kept@.len() implies #[trigger] kept@[a].wf() by {
                        if a < k0.len() {
                            assert(kept@[a] == k0[a]);
                        }
                    }
                }
            }
            i += 1;
            proof {
                assert(rest@ =~= all.subrange(i as int, all.len() as int));
            }
        }
        proof {
            assert(all.subrange(0, all.len() as int) =~= all);
        }
        self.entities = kept;
        to_remove.0.clear();
    }
}

} // verus!
