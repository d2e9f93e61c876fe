use vstd::prelude::*;

use crate::types::{AnimationDirection, AnimationName, AnimationType, EntityId, Handles};

verus! {

/// A registered animation: the sheet it draws from and its template.
#[derive(Debug)]
pub struct Animation {
    pub handles: Handles,
    pub animation: AnimationType,
}

/// An animation handed in for registration.
#[derive(Debug)]
pub struct NewAnimation {
    pub handles: Handles,
    pub animation: AnimationType,
}

/// Why a registration was refused.
#[derive(Debug, PartialEq, Eq)]
pub enum AnimationsError {
    /// The entity is tracked already.
    EntityExists(EntityId),
    /// The entity has an animation of that name already.
    AnimationExists(AnimationName, EntityId),
    /// No animation of that name is registered.
    UnknownAnimation(AnimationName),
}

/// Whether `list` holds an animation named `name`.
pub open spec fn named_has(list: Seq<AnimationType>, name: Seq<char>) -> bool {
    exists|i: int| 0 <= i < list.len() && #[trigger] list[i].name_spec() == name
}

/// Where `list` holds the animation named `name`.
pub open spec fn named_pos(list: Seq<AnimationType>, name: Seq<char>) -> int {
    choose|i: int| 0 <= i < list.len() && #[trigger] list[i].name_spec() == name
}

/// Well-formed animations, none of them the placeholder, no two of one name.
pub open spec fn named_wf(list: Seq<AnimationType>) -> bool {
    &&& forall|i: int| 0 <= i < list.len() ==> (#[trigger] list[i]).wf() && !(list[i] is Empty)
    &&& forall|i: int, j: int|
        0 <= i < list.len() && 0 <= j < list.len() && i != j ==> #[trigger] list[i].name_spec()
            != #[trigger] list[j].name_spec()
}

pub proof fn lemma_named_pos(list: Seq<AnimationType>, name: Seq<char>, i: int)
    requires
        named_wf(list),
        0 <= i < list.len(),
        list[i].name_spec() == name,
    ensures
        named_has(list, name),
        named_pos(list, name) == i,
{
    assert(list[i].name_spec() == name);
    let j = named_pos(list, name);
    assert(0 <= j < list.len() && list[j].name_spec() == name);
}

/// The templates of a pool, in order.
pub open spec fn templates(pool: Seq<Animation>) -> Seq<AnimationType> {
    pool.map_values(|a: Animation| a.animation)
}

pub fn find_named(list: &Vec<AnimationType>, name: &AnimationName) -> (r: Option<usize>)
    requires
        named_wf(list@),
    ensures
        match r {
            Some(i) => i < list@.len() && list@[i as int].name_spec() == name@ && named_has(list@, name@)
                && named_pos(list@, name@) == i,
            None => !named_has(list@, name@),
        },
{
    let mut i: usize = 0;
    while i < list.len()
        invariant
            named_wf(list@),
            i <= list@.len(),
            forall|j: int| 0 <= j < i ==> #[trigger] list@[j].name_spec() != name@,
        decreases list.len() - i,
    {
        assert(!(list@[i as int] is Empty));
        if *list[i].get_name() == *name {
            proof {
                lemma_named_pos(list@, name@, i as int);
            }
            return Some(i);
        }
        i += 1;
    }
    None
}

pub fn find_in_pool(pool: &Vec<Animation>, name: &AnimationName) -> (r: Option<usize>)
    requires
        named_wf(templates(pool@)),
    ensures
        match r {
            Some(i) => i < pool@.len() && pool@[i as int].animation.name_spec() == name@ && named_has(
                templates(pool@),
                name@,
            ) && named_pos(templates(pool@), name@) == i,
            None => !named_has(templates(pool@), name@),
        },
{
    let ghost t = templates(pool@);
    let mut i: usize = 0;
    while i < pool.len()
        invariant
            t == templates(pool@),
            named_wf(t),
            i <= pool@.len(),
            forall|j: int| 0 <= j < i ==> #[trigger] t[j].name_spec() != name@,
        decreases pool.len() - i,
    {
        assert(t[i as int] == pool@[i as int].animation);
        if *pool[i].animation.get_name() == *name {
            proof {
                lemma_named_pos(t, name@, i as int);
            }
            return Some(i);
        }
        i += 1;
    }
    None
}

/// An entity that the registry drives.
#[derive(Debug)]
pub struct AnimatingEntity {
    pub entity: EntityId,
    pub in_blocking_animation: bool,
    /// The entity's own copies of its animations.
    pub animations: Vec<AnimationType>,
    /// Which of them is playing, if any.
    pub curr_animation: Option<usize>,
    pub curr_direction: AnimationDirection,
    /// The last direction other than `Still`.
    pub last_valid_direction: AnimationDirection,
    /// Whether a request has started the current animation, so that ticks advance it.
    pub curr_animation_called: bool,
    /// Whether the entity is an effect, despawned once its animation ends.
    pub fx_animation: bool,
}

impl AnimatingEntity {
    pub open spec fn wf(self) -> bool {
        &&& named_wf(self.animations@)
        &&& match self.curr_animation {
            Some(c) => c < self.animations@.len(),
            None => !self.curr_animation_called,
        }
    }

    /// Same entity and flags; the animations may differ.
    pub open spec fn same_status(self, other: AnimatingEntity) -> bool {
        &&& self.entity == other.entity
        &&& self.in_blocking_animation == other.in_blocking_animation
        &&& self.curr_direction == other.curr_direction
        &&& self.last_valid_direction == other.last_valid_direction
        &&& self.curr_animation_called == other.curr_animation_called
        &&& self.fx_animation == other.fx_animation
    }

    /// The playing animation, or the placeholder.
    pub open spec fn current(self) -> AnimationType {
        match self.curr_animation {
            Some(c) => self.animations@[c as int],
            None => AnimationType::Empty,
        }
    }

    /// An entity that nothing plays on yet.
    pub open spec fn is_fresh(self, entity: EntityId) -> bool {
        &&& self.entity == entity
        &&& !self.in_blocking_animation
        &&& self.curr_direction == AnimationDirection::Still
        &&& self.last_valid_direction == AnimationDirection::Still
        &&& !self.curr_animation_called
        &&& !self.fx_animation
    }

    /// Adds an animation of a name the entity does not have; the first becomes the current one.
    fn attach(&mut self, animation: AnimationType)
        requires
            old(self).wf(),
            animation.wf(),
            !(animation is Empty),
            !named_has(old(self).animations@, animation.name_spec()),
        ensures
            final(self).wf(),
            final(self).same_status(*old(self)),
            final(self).animations@ == old(self).animations@.push(animation),
            final(self).curr_animation == (if old(self).curr_animation is None {
                Some(old(self).animations@.len() as usize)
            } else {
                old(self).curr_animation
            }),
    {
        let n = self.animations.len();
        self.animations.push(animation);
        if self.curr_animation.is_none() {
            self.curr_animation = Some(n);
        }
        proof {
            let l = self.animations@;
            assert forall|i: int, j: int| 0 <= i < l.len() && 0 <= j < l.len() && i != j implies
                #[trigger] l[i].name_spec() != #[trigger] l[j].name_spec() by {
                if i == n as int {
                    assert(old(self).animations@[j] == l[j]);
                } else if j == n as int {
                    assert(old(self).animations@[i] == l[i]);
                }
            }
        }
    }

    /// Puts a copy in place of the animation at `j`, which has the same name.
    fn replace(&mut self, j: usize, animation: AnimationType)
        requires
            old(self).wf(),
            animation.wf(),
            !(animation is Empty),
            j < old(self).animations@.len(),
            old(self).animations@[j as int].name_spec() == animation.name_spec(),
        ensures
            final(self).wf(),
            final(self).same_status(*old(self)),
            final(self).curr_animation == old(self).curr_animation,
            final(self).animations@ == old(self).animations@.update(j as int, animation),
    {
        self.animations.set(j, animation);
        proof {
            let l = self.animations@;
            assert forall|a: int, b: int| 0 <= a < l.len() && 0 <= b < l.len() && a != b implies
                #[trigger] l[a].name_spec() != #[trigger] l[b].name_spec() by {
                assert(l[a].name_spec() == old(self).animations@[a].name_spec());
                assert(l[b].name_spec() == old(self).animations@[b].name_spec());
            }
        }
    }

    fn fresh(entity: EntityId, animations: Vec<AnimationType>, curr_animation: Option<usize>) -> (r: AnimatingEntity)
        ensures
            r.is_fresh(entity),
            r.animations == animations,
            r.curr_animation == curr_animation,
    {
        AnimatingEntity {
            entity,
            in_blocking_animation: false,
            animations,
            curr_animation,
            curr_direction: AnimationDirection::Still,
            last_valid_direction: AnimationDirection::Still,
            curr_animation_called: false,
            fx_animation: false,
        }
    }
}

/// A new effect entity playing `animation` from the start.
pub open spec fn is_fx_start(e: AnimatingEntity, entity: EntityId, animation: AnimationType) -> bool {
    &&& e.entity == entity
    &&& !e.in_blocking_animation
    &&& e.curr_direction == AnimationDirection::Still
    &&& e.last_valid_direction == AnimationDirection::Still
    &&& e.curr_animation_called
    &&& e.fx_animation
    &&& e.animations@.len() == 1
    &&& e.animations@[0].matches(animation)
    &&& e.curr_animation == Some(0usize)
}

/// `new` is `old` with a copy of `a` given to `entity`: in place of its animation of that name,
/// or added (the first one becoming current), or on a new entity when it was not tracked.
pub open spec fn attached(old: Seq<AnimatingEntity>, new: Seq<AnimatingEntity>, entity: EntityId, a: AnimationType) -> bool {
    if tracks(old, entity) {
        let p = entity_pos(old, entity);
        let e = old[p];
        let e2 = new[p];
        &&& new.len() == old.len()
        &&& forall|k: int| 0 <= k < old.len() && k != p ==> new[k] == old[k]
        &&& e2.same_status(e)
        &&& if named_has(e.animations@, a.name_spec()) {
            let j = named_pos(e.animations@, a.name_spec());
            &&& e2.animations@.len() == e.animations@.len()
            &&& forall|k: int| 0 <= k < e.animations@.len() && k != j ==> e2.animations@[k] == e.animations@[k]
            &&& e2.animations@[j].matches(a)
            &&& e2.curr_animation == e.curr_animation
        } else {
            &&& e2.animations@.len() == e.animations@.len() + 1
            &&& e2.animations@.drop_last() == e.animations@
            &&& e2.animations@.last().matches(a)
            &&& e2.curr_animation == (if e.curr_animation is None {
                Some(e.animations@.len() as usize)
            } else {
                e.curr_animation
            })
        }
    } else {
        &&& new.len() == old.len() + 1
        &&& new.drop_last() == old
        &&& new.last().is_fresh(entity)
        &&& new.last().animations@.len() == 1
        &&& new.last().animations@[0].matches(a)
        &&& new.last().curr_animation == Some(0usize)
    }
}

/// Giving a copy of `a` or of `b` is the same when the two match.
pub proof fn lemma_attached_matches(old: Seq<AnimatingEntity>, new: Seq<AnimatingEntity>, entity: EntityId, a: AnimationType, b: AnimationType)
    requires
        attached(old, new, entity, a),
        a.matches(b),
    ensures
        attached(old, new, entity, b),
{
    a.lemma_matches(b);
    assert(a.name_spec() == b.name_spec());
}

/// Whether `entities` tracks `entity`.
pub open spec fn tracks(entities: Seq<AnimatingEntity>, entity: EntityId) -> bool {
    exists|i: int| 0 <= i < entities.len() && #[trigger] entities[i].entity == entity
}

/// Where `entities` holds `entity`.
pub open spec fn entity_pos(entities: Seq<AnimatingEntity>, entity: EntityId) -> int {
    choose|i: int| 0 <= i < entities.len() && #[trigger] entities[i].entity == entity
}

pub open spec fn entities_wf(entities: Seq<AnimatingEntity>) -> bool {
    &&& forall|i: int| 0 <= i < entities.len() ==> #[trigger] entities[i].wf()
    &&& forall|i: int, j: int|
        0 <= i < entities.len() && 0 <= j < entities.len() && i != j ==> #[trigger] entities[i].entity
            != #[trigger] entities[j].entity
}

pub proof fn lemma_entity_pos(entities: Seq<AnimatingEntity>, entity: EntityId, i: int)
    requires
        entities_wf(entities),
        0 <= i < entities.len(),
        entities[i].entity == entity,
    ensures
        tracks(entities, entity),
        entity_pos(entities, entity) == i,
{
    assert(entities[i].entity == entity);
    let j = entity_pos(entities, entity);
    assert(0 <= j < entities.len() && entities[j].entity == entity);
}

pub fn find_entity(entities: &Vec<AnimatingEntity>, entity: EntityId) -> (r: Option<usize>)
    requires
        entities_wf(entities@),
    ensures
        match r {
            Some(i) => i < entities@.len() && entities@[i as int].entity == entity && tracks(entities@, entity)
                && entity_pos(entities@, entity) == i,
            None => !tracks(entities@, entity),
        },
{
    let mut i: usize = 0;
    while i < entities.len()
        invariant
            entities_wf(entities@),
            i <= entities@.len(),
            forall|j: int| 0 <= j < i ==> #[trigger] entities@[j].entity != entity,
        decreases entities.len() - i,
    {
        if entities[i].entity == entity {
            proof {
                lemma_entity_pos(entities@, entity, i as int);
            }
            return Some(i);
        }
        i += 1;
    }
    None
}

impl Default for Animations {
    fn default() -> (r: Animations)
        ensures
            r.wf(),
            r.entities@.len() == 0,
            r.animations@.len() == 0,
            r.fx_animations@.len() == 0,
    {
        Animations::new()
    }
}

/// The animations that can be played, and the entities that play them.
#[derive(Debug)]
pub struct Animations {
    pub entities: Vec<AnimatingEntity>,
    pub animations: Vec<Animation>,
    pub fx_animations: Vec<Animation>,
}

impl Animations {
    pub open spec fn wf(self) -> bool {
        &&& entities_wf(self.entities@)
        &&& named_wf(templates(self.animations@))
        &&& named_wf(templates(self.fx_animations@))
    }

    pub open spec fn tracks_spec(self, entity: EntityId) -> bool {
        tracks(self.entities@, entity)
    }

    pub open spec fn entity_spec(self, entity: EntityId) -> AnimatingEntity {
        self.entities@[entity_pos(self.entities@, entity)]
    }

    pub open spec fn has_animation_spec(self, name: Seq<char>) -> bool {
        named_has(templates(self.animations@), name)
    }

    pub open spec fn template(self, name: Seq<char>) -> Animation {
        self.animations@[named_pos(templates(self.animations@), name)]
    }

    pub open spec fn has_fx_spec(self, name: Seq<char>) -> bool {
        named_has(templates(self.fx_animations@), name)
    }

    pub open spec fn fx_template(self, name: Seq<char>) -> Animation {
        self.fx_animations@[named_pos(templates(self.fx_animations@), name)]
    }

    /// Whether the entity is tracked and has an animation of that name.
    pub open spec fn entity_has_spec(self, entity: EntityId, name: Seq<char>) -> bool {
        self.tracks_spec(entity) && named_has(self.entity_spec(entity).animations@, name)
    }

    pub fn new() -> (r: Animations)
        ensures
            r.wf(),
            r.entities@.len() == 0,
            r.animations@.len() == 0,
            r.fx_animations@.len() == 0,
    {
        let r = Animations { entities: Vec::new(), animations: Vec::new(), fx_animations: Vec::new() };
        proof {
            assert(templates(r.animations@) =~= Seq::empty());
            assert(templates(r.fx_animations@) =~= Seq::empty());
        }
        r
    }

    /// Whether the entity is tracked.
    pub fn has_entity(&self, entity: &EntityId) -> (r: bool)
        requires
            self.wf(),
        ensures
            r == self.tracks_spec(*entity),
    {
        find_entity(&self.entities, *entity).is_some()
    }

    /// Whether the entity is tracked.
    pub fn is_inserted(&self, key: &EntityId) -> (r: bool)
        requires
            self.wf(),
        ensures
            r == self.tracks_spec(*key),
    {
        self.has_entity(key)
    }

    /// Whether an animation of that name is registered.
    pub fn has_animation(&self, animation_name: &AnimationName) -> (r: bool)
        requires
            self.wf(),
        ensures
            r == self.has_animation_spec(animation_name@),
    {
        find_in_pool(&self.animations, animation_name).is_some()
    }

    /// The handles of the animation of that name, if it is registered.
    pub fn get_handles(&self, animation_name: &AnimationName) -> (r: Option<Handles>)
        requires
            self.wf(),
        ensures
            r == (if self.has_animation_spec(animation_name@) {
                Some(self.template(animation_name@).handles)
            } else {
                None
            }),
    {
        match find_in_pool(&self.animations, animation_name) {
            Some(i) => Some(self.animations[i].handles),
            None => None,
        }
    }

    /// The handles of the effect of that name, if it is registered.
    pub fn get_fx_handles(&self, animation_name: &AnimationName) -> (r: Option<Handles>)
        requires
            self.wf(),
        ensures
            r == (if self.has_fx_spec(animation_name@) {
                Some(self.fx_template(animation_name@).handles)
            } else {
                None
            }),
    {
        match find_in_pool(&self.fx_animations, animation_name) {
            Some(i) => Some(self.fx_animations[i].handles),
            None => None,
        }
    }

    /// `Some(())` when the entity is tracked and has an animation of that name.
    pub fn entity_has_animation(&self, animation_name: &AnimationName, entity: EntityId) -> (r: Option<()>)
        requires
            self.wf(),
        ensures
            r is Some == self.entity_has_spec(entity, animation_name@),
    {
        match find_entity(&self.entities, entity) {
            Some(i) => {
                assert(self.entities@[i as int].wf());
                match find_named(&self.entities[i].animations, animation_name) {
                    Some(_) => Some(()),
                    None => None,
                }
            },
            None => None,
        }
    }

    /// Whether the entity is held in a blocking animation; `None` when it is not tracked.
    pub fn in_blocking_animation(&self, entity: EntityId) -> (r: Option<bool>)
        requires
            self.wf(),
        ensures
            r == (if self.tracks_spec(entity) {
                Some(self.entity_spec(entity).in_blocking_animation)
            } else {
                None
            }),
    {
        match find_entity(&self.entities, entity) {
            Some(i) => Some(self.entities[i].in_blocking_animation),
            None => None,
        }
    }

    /// Whether a request has started the entity's current animation; `None` when it is not
    /// tracked.
    pub fn in_animation(&self, entity: EntityId) -> (r: Option<bool>)
        requires
            self.wf(),
        ensures
            r == (if self.tracks_spec(entity) {
                Some(self.entity_spec(entity).curr_animation_called)
            } else {
                None
            }),
    {
        match find_entity(&self.entities, entity) {
            Some(i) => Some(self.entities[i].curr_animation_called),
            None => None,
        }
    }

    /// Whether the entity's current animation has the name and was started by a request;
    /// `None` when the entity is not tracked.
    pub fn doing_animation(&self, entity: EntityId, animation_name: &AnimationName) -> (r: Option<bool>)
        requires
            self.wf(),
        ensures
            r == (if self.tracks_spec(entity) {
                let e = self.entity_spec(entity);
                Some(e.curr_animation_called && e.curr_animation is Some && e.current().name_spec()
                    == animation_name@)
            } else {
                None
            }),
    {
        match find_entity(&self.entities, entity) {
            Some(i) => {
                let e = &self.entities[i];
                assert(e.wf());
                match e.curr_animation {
                    Some(c) => Some(e.curr_animation_called && *e.animations[c].get_name() == *animation_name),
                    None => Some(false),
                }
            },
            None => None,
        }
    }

    /// Whether the animation of that name is not the one the entity plays now; `None` when
    /// the entity is not tracked.
    pub fn is_new_animation(&self, animation_name: &AnimationName, entity: &EntityId) -> (r: Option<bool>)
        requires
            self.wf(),
        ensures
            r == (if self.tracks_spec(*entity) {
                let e = self.entity_spec(*entity);
                Some(e.curr_animation is None || e.current().name_spec() != animation_name@)
            } else {
                None
            }),
    {
        match find_entity(&self.entities, *entity) {
            Some(i) => {
                let e = &self.entities[i];
                assert(e.wf());
                match e.curr_animation {
                    Some(c) => Some(!(*e.animations[c].get_name() == *animation_name)),
                    None => Some(true),
                }
            },
            None => None,
        }
    }

    /// The ids of the tracked entities, in the order in which the registry holds them.
    pub fn entity_ids(&self) -> (r: Vec<EntityId>)
        ensures
            r@.len() == self.entities@.len(),
            forall|i: int| 0 <= i < r@.len() ==> r@[i] == #[trigger] self.entities@[i].entity,
    {
        let mut r: Vec<EntityId> = Vec::new();
        let mut i: usize = 0;
        while i < self.entities.len()
            invariant
                i <= self.entities@.len(),
                r@.len() == i,
                forall|j: int| 0 <= j < i ==> r@[j] == #[trigger] self.entities@[j].entity,
            decreases self.entities.len() - i,
        {
            r.push(self.entities[i].entity);
            i += 1;
        }
        r
    }

    /// Tracks an entity with no animation yet; an entity tracked already is an error.
    pub fn insert_entity(&mut self, entity: EntityId) -> (r: Result<(), AnimationsError>)
        requires
            old(self).wf(),
        ensures
            final(self).wf(),
            final(self).animations == old(self).animations,
            final(self).fx_animations == old(self).fx_animations,
            old(self).tracks_spec(entity) ==> r == Err::<(), AnimationsError>(AnimationsError::EntityExists(entity))
                && final(self).entities == old(self).entities,
            !old(self).tracks_spec(entity) ==> r is Ok && final(self).entities@.len() == old(self).entities@.len()
                + 1 && final(self).entities@.drop_last() == old(self).entities@ && final(self).entities@.last().is_fresh(
                entity,
            ) && final(self).entities@.last().animations@.len() == 0 && final(self).entities@.last().curr_animation
                is None,
    {
        if find_entity(&self.entities, entity).is_some() {
            return Err(AnimationsError::EntityExists(entity));
        }
        let e = AnimatingEntity::fresh(entity, Vec::new(), None);
        proof {
            assert(named_wf(e.animations@));
        }
        self.entities.push(e);
        proof {
            assert(self.entities@.drop_last() =~= old(self).entities@);
            assert forall|i: int, j: int|
                0 <= i < self.entities@.len() && 0 <= j < self.entities@.len() && i != j implies
                #[trigger] self.entities@[i].entity != #[trigger] self.entities@[j].entity by {
                if i == self.entities@.len() - 1 {
                    assert(old(self).entities@[j].entity == self.entities@[j].entity);
                } else if j == self.entities@.len() - 1 {
                    assert(old(self).entities@[i].entity == self.entities@[i].entity);
                }
            }
        }
        Ok(())
    }

    /// Gives `entity` a copy of `animation`; see `attached`.
    fn attach_copy(&mut self, entity: EntityId, animation: &AnimationType)
        requires
            old(self).wf(),
            animation.wf(),
            !(*animation is Empty),
        ensures
            final(self).wf(),
            final(self).animations == old(self).animations,
            final(self).fx_animations == old(self).fx_animations,
            attached(old(self).entities@, final(self).entities@, entity, *animation),
    {
        let copy = animation.clone_animation();
        proof {
            copy.lemma_matches(*animation);
        }
        match find_entity(&self.entities, entity) {
            Some(i) => {
                let ghost e = self.entities@[i as int];
                assert(e.wf());
                match find_named(&self.entities[i].animations, animation.get_name()) {
                    Some(j) => {
                        self.entities[i].replace(j, copy);
                    },
                    None => {
                        self.entities[i].attach(copy);
                        proof {
                            assert(self.entities@[i as int].animations@.drop_last() =~= e.animations@);
                        }
                    },
                }
                proof {
                    assert forall|a: int, b: int|
                        0 <= a < self.entities@.len() && 0 <= b < self.entities@.len() && a != b implies
                        #[trigger] self.entities@[a].entity != #[trigger] self.entities@[b].entity by {
                        assert(self.entities@[a].entity == old(self).entities@[a].entity);
                        assert(self.entities@[b].entity == old(self).entities@[b].entity);
                    }
                    assert forall|a: int| 0 <= a < self.entities@.len() implies #[trigger] self.entities@[a].wf() by {
                        if a != i as int {
                            assert(self.entities@[a] == old(self).entities@[a]);
                        }
                    }
                }
            },
            None => {
                let mut list: Vec<AnimationType> = Vec::new();
                list.push(copy);
                let e = AnimatingEntity::fresh(entity, list, Some(0));
                self.entities.push(e);
                proof {
                    assert(self.entities@.drop_last() =~= old(self).entities@);
                    assert forall|a: int, b: int|
                        0 <= a < self.entities@.len() && 0 <= b < self.entities@.len() && a != b implies
                        #[trigger] self.entities@[a].entity != #[trigger] self.entities@[b].entity by {
                        if a == self.entities@.len() - 1 {
                            assert(old(self).entities@[b].entity == self.entities@[b].entity);
                        } else if b == self.entities@.len() - 1 {
                            assert(old(self).entities@[a].entity == self.entities@[a].entity);
                        }
                    }
                }
            },
        }
    }

    /// Gives the entity a copy of the registered animation of that name, tracking the entity if
    /// needed. Refused for an unknown name, or one the entity has already.
    pub fn add_animation_to_entity(&mut self, animation_name: &AnimationName, entity: EntityId) -> (r: Result<
        (),
        AnimationsError,
    >)
        requires
            old(self).wf(),
        ensures
            final(self).wf(),
            final(self).animations == old(self).animations,
            final(self).fx_animations == old(self).fx_animations,
            !old(self).has_animation_spec(animation_name@) ==> r is Err && r->Err_0 is UnknownAnimation
                && r->Err_0->UnknownAnimation_0@ == animation_name@ && final(self).entities == old(self).entities,
            old(self).has_animation_spec(animation_name@) && old(self).entity_has_spec(entity, animation_name@)
                ==> r is Err && r->Err_0 is AnimationExists && r->Err_0->AnimationExists_0@ == animation_name@
                && r->Err_0->AnimationExists_1 == entity && final(self).entities == old(self).entities,
            old(self).has_animation_spec(animation_name@) && !old(self).entity_has_spec(entity, animation_name@)
                ==> r is Ok && attached(
                old(self).entities@,
                final(self).entities@,
                entity,
                old(self).template(animation_name@).animation,
            ),
    {
        let p = match find_in_pool(&self.animations, animation_name) {
            Some(p) => p,
            None => {
                return Err(AnimationsError::UnknownAnimation(animation_name.clone()));
            },
        };
        if self.entity_has_animation(animation_name, entity).is_some() {
            return Err(AnimationsError::AnimationExists(animation_name.clone(), entity));
        }
        let template = self.animations[p].animation.clone_animation();
        proof {
            let t = templates(old(self).animations@);
            assert(t[p as int] == old(self).animations@[p as int].animation);
            template.lemma_matches(old(self).animations@[p as int].animation);
        }
        self.attach_copy(entity, &template);
        proof {
            let a = old(self).template(animation_name@).animation;
            assert(template.matches(a));
            lemma_attached_matches(old(self).entities@, self.entities@, entity, template, a);
        }
        Ok(())
    }

    /// Registers an animation unless one of that name is registered already (the first stays),
    /// and gives a copy of it to `entity` when one is named.
    pub fn insert_animation(&mut self, animation: NewAnimation, entity: Option<EntityId>) -> (r: &mut Self)
        requires
            old(self).wf(),
            animation.animation.wf(),
            !(animation.animation is Empty),
        ensures
            r.wf(),
            *final(self) == *final(r),
            r.fx_animations == old(self).fx_animations,
            r.animations@ == (if old(self).has_animation_spec(animation.animation.name_spec()) {
                old(self).animations@
            } else {
                old(self).animations@.push(Animation { handles: animation.handles, animation: animation.animation })
            }),
            entity is None ==> r.entities == old(self).entities,
            entity is Some ==> attached(old(self).entities@, r.entities@, entity->Some_0, animation.animation),
    {
        if let Some(id) = entity {
            self.attach_copy(id, &animation.animation);
        }
        let ghost mid = self.entities;
        let known = find_in_pool(&self.animations, animation.animation.get_name()).is_some();
        if !known {
            let ghost t0 = templates(self.animations@);
            self.animations.push(Animation { handles: animation.handles, animation: animation.animation });
            proof {
                let t = templates(self.animations@);
                assert(t =~= t0.push(self.animations@.last().animation));
                assert forall|a: int, b: int| 0 <= a < t.len() && 0 <= b < t.len() && a != b implies
                    #[trigger] t[a].name_spec() != #[trigger] t[b].name_spec() by {
                    if a == t.len() - 1 {
                        assert(t[b] == t0[b]);
                    } else if b == t.len() - 1 {
                        assert(t[a] == t0[a]);
                    }
                }
            }
        }
        self
    }

    /// Registers an effect unless one of that name is registered already (the first stays).
    pub fn insert_fx_animation(&mut self, value: NewAnimation) -> (r: &mut Self)
        requires
            old(self).wf(),
            value.animation.wf(),
            !(value.animation is Empty),
        ensures
            r.wf(),
            *final(self) == *final(r),
            r.entities == old(self).entities,
            r.animations == old(self).animations,
            r.fx_animations@ == (if old(self).has_fx_spec(value.animation.name_spec()) {
                old(self).fx_animations@
            } else {
                old(self).fx_animations@.push(Animation { handles: value.handles, animation: value.animation })
            }),
    {
        let known = find_in_pool(&self.fx_animations, value.animation.get_name()).is_some();
        if !known {
            let ghost t0 = templates(self.fx_animations@);
            self.fx_animations.push(Animation { handles: value.handles, animation: value.animation });
            proof {
                let t = templates(self.fx_animations@);
                assert(t =~= t0.push(self.fx_animations@.last().animation));
                assert forall|a: int, b: int| 0 <= a < t.len() && 0 <= b < t.len() && a != b implies
                    #[trigger] t[a].name_spec() != #[trigger] t[b].name_spec() by {
                    if a == t.len() - 1 {
                        assert(t[b] == t0[b]);
                    } else if b == t.len() - 1 {
                        assert(t[a] == t0[a]);
                    }
                }
            }
        }
        self
    }

    /// Starts the effect of that name on the new entity `key`: the entity plays a copy of it at
    /// once. Returns the sheet to draw with and the first cell, or `Err` for an unknown effect.
    pub fn start_fx_animation(&mut self, key: EntityId, animation: &AnimationName) -> (r: Result<(Handles, usize), ()>)
        requires
            old(self).wf(),
        ensures
            final(self).wf(),
            final(self).animations == old(self).animations,
            final(self).fx_animations == old(self).fx_animations,
            !old(self).has_fx_spec(animation@) ==> r is Err && final(self).entities == old(self).entities,
            old(self).has_fx_spec(animation@) ==> {
                let t = old(self).fx_template(animation@);
                &&& r == Ok::<(Handles, usize), ()>(
                    (t.handles, t.animation.sprite_index_spec(AnimationDirection::Still) as usize),
                )
                &&& t.animation.sprite_index_spec(AnimationDirection::Still) <= usize::MAX
                &&& if old(self).tracks_spec(key) {
                    let p = entity_pos(old(self).entities@, key);
                    &&& final(self).entities@ .len() == old(self).entities@.len()
                    &&& forall|k: int| 0 <= k < old(self).entities@.len() && k != p ==> final(self).entities@[k]
                        == old(self).entities@[k]
                    &&& is_fx_start(final(self).entities@[p], key, t.animation)
                } else {
                    &&& final(self).entities@.drop_last() == old(self).entities@
                    &&& final(self).entities@.len() == old(self).entities@.len() + 1
                    &&& is_fx_start(final(self).entities@.last(), key, t.animation)
                }
            },
    {
        let p = match find_in_pool(&self.fx_animations, animation) {
            Some(p) => p,
            None => {
                return Err(());
            },
        };
        let copy = self.fx_animations[p].animation.clone_animation();
        let handles = self.fx_animations[p].handles;
        proof {
            let t = templates(old(self).fx_animations@);
            assert(t[p as int] == old(self).fx_animations@[p as int].animation);
            copy.lemma_matches(old(self).fx_animations@[p as int].animation);
        }
        let index = copy.sprite_index(&AnimationDirection::Still);
        let mut list: Vec<AnimationType> = Vec::new();
        list.push(copy);
        let e = AnimatingEntity {
            entity: key,
            in_blocking_animation: false,
            animations: list,
            curr_animation: Some(0),
            curr_direction: AnimationDirection::Still,
            last_valid_direction: AnimationDirection::Still,
            curr_animation_called: true,
            fx_animation: true,
        };
        proof {
            assert(e.animations@[0] == copy);
        }
        match find_entity(&self.entities, key) {
            Some(i) => {
                self.entities.set(i, e);
                proof {
                    assert forall|a: int, b: int|
                        0 <= a < self.entities@.len() && 0 <= b < self.entities@.len() && a != b implies
                        #[trigger] self.entities@[a].entity != #[trigger] self.entities@[b].entity by {
                        assert(self.entities@[a].entity == old(self).entities@[a].entity);
                        assert(self.entities@[b].entity == old(self).entities@[b].entity);
                    }
                }
            },
            None => {
                self.entities.push(e);
                proof {
                    assert(self.entities@.drop_last() =~= old(self).entities@);
                    assert forall|a: int, b: int|
                        0 <= a < self.entities@.len() && 0 <= b < self.entities@.len() && a != b implies
                        #[trigger] self.entities@[a].entity != #[trigger] self.entities@[b].entity by {
                        if a == self.entities@.len() - 1 {
                            assert(old(self).entities@[b].entity == self.entities@[b].entity);
                        } else if b == self.entities@.len() - 1 {
                            assert(old(self).entities@[a].entity == self.entities@[a].entity);
                        }
                    }
                }
            },
        }
        Ok((handles, index))
    }

    /// The tracked entity, for reading or changing; `None` when it is not tracked.
    pub fn get_entity(&mut self, entity: &EntityId) -> (r: Option<&mut AnimatingEntity>)
        requires
            old(self).wf(),
        ensures
            !old(self).tracks_spec(*entity) ==> r is None && *final(self) == *old(self),
            old(self).tracks_spec(*entity) ==> r is Some && *r->Some_0 == old(self).entity_spec(*entity)
                && final(self).entities@ == old(self).entities@.update(
                entity_pos(old(self).entities@, *entity),
                *final(r->Some_0),
            ) && final(self).animations == old(self).animations && final(self).fx_animations
                == old(self).fx_animations,
    {
        match find_entity(&self.entities, *entity) {
            Some(i) => Some(&mut self.entities[i]),
            None => None,
        }
    }

    /// The tracked entities.
    pub fn get_map(&self) -> (r: &Vec<AnimatingEntity>)
        ensures
            *r == self.entities,
    {
        &self.entities
    }

    /// The tracked entities, for changing; a change must keep them well-formed.
    pub fn get_mut_map(&mut self) -> (r: &mut Vec<AnimatingEntity>)
        ensures
            *r == old(self).entities,
            *final(self) == (Animations { entities: *final(r), ..*old(self) }),
    {
        &mut self.entities
    }
}

} // verus!
