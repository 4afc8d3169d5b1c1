use vstd::prelude::*;

use crate::entity::{views, Entity, EntityView, EventType};
use crate::fixed::{fx_add, fx_mul, fx_neg, fx_sub, Fixed};

verus! {

/// Where an obstacle lay, before this tick's move, relative to the moving entity.
#[derive(Clone, Copy, Debug, PartialEq, Eq, Structural)]
pub enum Side {
    Below,
    Above,
    Right,
    Left,
}

/// `obstacle` lay wholly on `side` of an entity of size `size` at position `before`.
pub open spec fn lay_on(obstacle: EntityView, before: (int, int), size: (u32, u32), side: Side) -> bool {
    match side {
        Side::Below => obstacle.position.1 >= fx_add(before.1, size.1 as int * 1000),
        Side::Above => fx_add(obstacle.position.1, obstacle.height()) <= before.1,
        Side::Right => obstacle.position.0 >= fx_add(before.0, size.0 as int * 1000),
        Side::Left => fx_add(obstacle.position.0, obstacle.width()) <= before.0,
    }
}

/// `obstacle` overlaps `moved` and lay on `side` of it before the move from `before`.
pub open spec fn hits(obstacle: EntityView, moved: EntityView, before: (int, int), side: Side) -> bool {
    obstacle.overlaps(moved) && lay_on(obstacle, before, moved.dimensions, side)
}

/// The first index from `k` on whose obstacle `hits` on `side`.
pub open spec fn first_hit(
    obstacles: Seq<EntityView>,
    moved: EntityView,
    before: (int, int),
    side: Side,
    k: nat,
) -> Option<int>
    decreases obstacles.len() - k,
{
    if k >= obstacles.len() {
        None
    } else if hits(obstacles[k as int], moved, before, side) {
        Some(k as int)
    } else {
        first_hit(obstacles, moved, before, side, k + 1)
    }
}

/// The first index from `k` on whose obstacle `e` rests on.
pub open spec fn first_ground(obstacles: Seq<EntityView>, e: EntityView, k: nat) -> Option<int>
    decreases obstacles.len() - k,
{
    if k >= obstacles.len() {
        None
    } else if e.rests_on(obstacles[k as int]) {
        Some(k as int)
    } else {
        first_ground(obstacles, e, k + 1)
    }
}

impl EntityView {
    /// Friction: resting on ground scales the horizontal speed by the larger of the two
    /// slippiness factors.
    pub open spec fn after_friction(self, obstacles: Seq<EntityView>) -> EntityView {
        match first_ground(obstacles, self, 0) {
            Some(g) => {
                let ground = obstacles[g];
                let factor = if self.slippiness >= ground.slippiness {
                    self.slippiness
                } else {
                    ground.slippiness
                };
                EntityView { velocity: (fx_mul(self.velocity.0, factor), self.velocity.1), ..self }
            },
            None => self,
        }
    }

    /// Acceleration is added to velocity, then velocity to position.
    pub open spec fn after_integration(self) -> EntityView {
        let vx = fx_add(self.velocity.0, self.acceleration.0);
        let vy = fx_add(self.velocity.1, self.acceleration.1);
        EntityView {
            velocity: (vx, vy),
            position: (fx_add(self.position.0, vx), fx_add(self.position.1, vy)),
            ..self
        }
    }

    /// Physical response to `obstacle` on `side`: snap against it, reflect the speed across
    /// that axis scaled by both bounciness factors, and die where a damaging entity meets
    /// one with health.
    pub open spec fn bounced_off(self, obstacle: EntityView, side: Side) -> EntityView {
        let factor = fx_mul(fx_neg(self.bounciness), obstacle.bounciness);
        let snapped = match side {
            Side::Below => EntityView {
                position: (self.position.0, fx_sub(obstacle.position.1, self.height())),
                velocity: (self.velocity.0, fx_mul(self.velocity.1, factor)),
                ..self
            },
            Side::Above => EntityView {
                position: (self.position.0, fx_add(obstacle.position.1, obstacle.height())),
                velocity: (self.velocity.0, fx_mul(self.velocity.1, factor)),
                ..self
            },
            Side::Right => EntityView {
                position: (fx_sub(obstacle.position.0, self.width()), self.position.1),
                velocity: (fx_mul(self.velocity.0, factor), self.velocity.1),
                ..self
            },
            Side::Left => EntityView {
                position: (fx_add(obstacle.position.0, obstacle.width()), self.position.1),
                velocity: (fx_mul(self.velocity.0, factor), self.velocity.1),
                ..self
            },
        };
        if obstacle.health is Some && self.damage_factor is Some {
            snapped.marked_dying()
        } else {
            snapped
        }
    }

    /// A grounded entity meeting an obstacle sideways climbs onto it when its bottom lies at
    /// most `step_height` below the obstacle's top.
    pub open spec fn can_step_onto(self, obstacle: EntityView, on_ground: bool) -> bool {
        on_ground && fx_sub(fx_add(self.position.1, self.height()), obstacle.position.1)
            <= self.step_height
    }

    /// Response to `obstacle` on `side`: its event where it carries one for `self`, else a
    /// step up onto it (sideways only), else a bounce.
    #[verifier::opaque]
    pub open spec fn responded(self, obstacle: EntityView, side: Side, on_ground: bool) -> EntityView {
        if self.is_triggered_by(obstacle) {
            self.after_event(obstacle.event->Some_0.event_type)
        } else if (side is Right || side is Left) && self.can_step_onto(obstacle, on_ground) {
            EntityView {
                position: (self.position.0, fx_sub(obstacle.position.1, self.height())),
                ..self
            }
        } else {
            self.bounced_off(obstacle, side)
        }
    }

    /// One tick: friction, integration, then the vertical and the horizontal response to
    /// the first obstacle met in each direction (below before above, right before left).
    pub open spec fn advanced(self, obstacles: Seq<EntityView>) -> EntityView {
        let moved = self.after_friction(obstacles).after_integration();
        let before = self.position;
        let below = first_hit(obstacles, moved, before, Side::Below, 0);
        let above = first_hit(obstacles, moved, before, Side::Above, 0);
        let right = first_hit(obstacles, moved, before, Side::Right, 0);
        let left = first_hit(obstacles, moved, before, Side::Left, 0);
        let vertical = match below {
            Some(i) => moved.responded(obstacles[i], Side::Below, false),
            None => match above {
                Some(i) => moved.responded(obstacles[i], Side::Above, false),
                None => moved,
            },
        };
        match right {
            Some(i) => vertical.responded(obstacles[i], Side::Right, below is Some),
            None => match left {
                Some(i) => vertical.responded(obstacles[i], Side::Left, below is Some),
                None => vertical,
            },
        }
    }
}

/// An entity that meets a trigger volume from any side, where the volume carries a teleport
/// for every entity, ends the tick at the teleport's target with the velocity it had after
/// integration: the volume moves it and does not bounce it.
pub proof fn lemma_teleport_passes_through(e: EntityView, volume: EntityView, x: int, y: int)
    requires
        volume.event matches Some(ev) && ev.event_type matches EventType::Teleport(tx, ty) && tx@
            == x && ty@ == y && ev.receiving_entity_ids.len() == 0,
        exists|side: Side|
            hits(
                volume,
                #[trigger] e.after_friction(seq![volume]).after_integration(),
                e.position,
                side,
            ),
    ensures
        e.advanced(seq![volume]).position == (x, y),
        e.advanced(seq![volume]).velocity == e.after_friction(seq![volume]).after_integration().velocity,
{
    reveal(EntityView::responded);
    let obstacles = seq![volume];
    let moved = e.after_friction(obstacles).after_integration();
    assert(obstacles[0] == volume);
    assert(first_hit(obstacles, moved, e.position, Side::Below, 1) is None);
    assert(first_hit(obstacles, moved, e.position, Side::Above, 1) is None);
    assert(first_hit(obstacles, moved, e.position, Side::Right, 1) is None);
    assert(first_hit(obstacles, moved, e.position, Side::Left, 1) is None);
}

impl Entity {
    fn find_ground_entity(&self, interactive_entities: &Vec<Entity>) -> (r: Option<usize>)
        ensures
            first_ground(views(interactive_entities@), self@, 0) == (match r {
                Some(i) => Some(i as int),
                None => None::<int>,
            }),
            r matches Some(i) ==> i < interactive_entities@.len(),
    {
        let ghost obstacles = views(interactive_entities@);
        let lower_end = self.position.1.whole() + self.dimensions.1 as i64;
        let left = self.position.0;
        let right = self.position.0.add(Fixed::from_length(self.dimensions.0));
        let mut i: usize = 0;
        while i < interactive_entities.len()
            invariant
                i <= interactive_entities@.len(),
                obstacles == views(interactive_entities@),
                first_ground(obstacles, self@, 0) == first_ground(obstacles, self@, i as nat),
                lower_end == crate::fixed::whole_units(self@.position.1) + self.dimensions.1 as int,
                left@ == self@.position.0,
                right@ == fx_add(self@.position.0, self@.width()),
            decreases interactive_entities@.len() - i,
        {
            let e = &interactive_entities[i];
            let e_left = e.position.0;
            let e_right = e.position.0.add(Fixed::from_length(e.dimensions.0));
            if e.position.1.whole() == lower_end && ((e_left.milli < left.milli && e_right.milli
                > left.milli) || (e_left.milli < right.milli && e_right.milli > right.milli)) {
                assert(obstacles[i as int] == e@);
                return Some(i);
            }
            assert(obstacles[i as int] == e@);
            i = i + 1;
        }
        None
    }

    /// Whether this entity rests on one of `interactive_entities`.
    pub fn is_touching_ground(&self, interactive_entities: &Vec<Entity>) -> (r: bool)
        ensures
            r == first_ground(views(interactive_entities@), self@, 0) is Some,
    {
        match self.find_ground_entity(interactive_entities) {
            Some(_) => true,
            None => false,
        }
    }

    fn find_hit(&self, obstacles: &Vec<Entity>, before: (Fixed, Fixed), side: Side) -> (r: Option<usize>)
        ensures
            first_hit(views(obstacles@), self@, (before.0@, before.1@), side, 0) == (match r {
                Some(i) => Some(i as int),
                None => None::<int>,
            }),
            r matches Some(i) ==> i < obstacles@.len(),
    {
        let ghost seen = views(obstacles@);
        let ghost b = (before.0@, before.1@);
        let width = Fixed::from_length(self.dimensions.0);
        let height = Fixed::from_length(self.dimensions.1);
        let mut i: usize = 0;
        while i < obstacles.len()
            invariant
                i <= obstacles@.len(),
                seen == views(obstacles@),
                b == (before.0@, before.1@),
                width@ == self@.width(),
                height@ == self@.height(),
                first_hit(seen, self@, b, side, 0) == first_hit(seen, self@, b, side, i as nat),
            decreases obstacles@.len() - i,
        {
            let o = &obstacles[i];
            assert(seen[i as int] == o@);
            let lies = match side {
                Side::Below => o.position.1.milli >= before.1.add(height).milli,
                Side::Above => o.position.1.add(Fixed::from_length(o.dimensions.1)).milli
                    <= before.1.milli,
                Side::Right => o.position.0.milli >= before.0.add(width).milli,
                Side::Left => o.position.0.add(Fixed::from_length(o.dimensions.0)).milli
                    <= before.0.milli,
            };
            if lies && o.is_inside_entity(self) {
                return Some(i);
            }
            i = i + 1;
        }
        None
    }

    /// Snaps against `obstacle` on `side`, reflects the speed across that axis, and marks
    /// this entity dying where it deals damage to an obstacle with health.
    fn bounce_off(&mut self, obstacle: &Entity, side: Side)
        ensures
            final(self)@ == old(self)@.bounced_off(obstacle@, side),
    {
        let factor = self.bounciness.neg().mul(obstacle.bounciness);
        match side {
            Side::Below => {
                self.position.1 = obstacle.position.1.sub(Fixed::from_length(self.dimensions.1));
                self.velocity.1 = self.velocity.1.mul(factor);
            },
            Side::Above => {
                self.position.1 = obstacle.position.1.add(
                    Fixed::from_length(obstacle.dimensions.1),
                );
                self.velocity.1 = self.velocity.1.mul(factor);
            },
            Side::Right => {
                self.position.0 = obstacle.position.0.sub(Fixed::from_length(self.dimensions.0));
                self.velocity.0 = self.velocity.0.mul(factor);
            },
            Side::Left => {
                self.position.0 = obstacle.position.0.add(
                    Fixed::from_length(obstacle.dimensions.0),
                );
                self.velocity.0 = self.velocity.0.mul(factor);
            },
        }
        if obstacle.health.is_some() && self.damage_factor.is_some() {
            self.id = Some(String::from_str("dying"));
            proof {
                reveal_strlit("dying");
            }
        }
    }

    fn respond(&mut self, obstacle: &Entity, side: Side, on_ground: bool)
        ensures
            final(self)@ == old(self)@.responded(obstacle@, side, on_ground),
    {
        reveal(EntityView::responded);
        if self.is_triggering(obstacle) {
            match &obstacle.event {
                Some(event) => self.run_event(event),
                None => {},
            }
        } else if (side == Side::Right || side == Side::Left) && on_ground
            && self.position.1.add(Fixed::from_length(self.dimensions.1)).sub(
            obstacle.position.1,
        ).milli <= self.step_height.milli {
            self.position.1 = obstacle.position.1.sub(Fixed::from_length(self.dimensions.1));
        } else {
            self.bounce_off(obstacle, side);
        }
    }

    /// Friction from the ground this entity rests on, then integration; returns the position
    /// from before the move.
    fn integrate(&mut self, interactive_entities: &Vec<Entity>) -> (before: (Fixed, Fixed))
        ensures
            final(self)@ == old(self)@.after_friction(views(interactive_entities@)).after_integration(),
            before == old(self).position,
    {
        let ghost obstacles = views(interactive_entities@);
        if let Some(g) = self.find_ground_entity(interactive_entities) {
            assert(obstacles[g as int] == interactive_entities@[g as int]@);
            let factor = self.slippiness.max(interactive_entities[g].slippiness);
            self.velocity.0 = self.velocity.0.mul(factor);
        }
        assert(self@ == old(self)@.after_friction(obstacles));
        self.velocity.0 = self.velocity.0.add(self.acceleration.0);
        self.velocity.1 = self.velocity.1.add(self.acceleration.1);
        let before = self.position;
        self.position.0 = self.position.0.add(self.velocity.0);
        self.position.1 = self.position.1.add(self.velocity.1);
        before
    }

    /// Advances this entity by one tick against the obstacles of `interactive_entities`:
    /// friction from the ground it rests on, integration, then collision and event response.
    pub fn next_state(&mut self, interactive_entities: &Vec<Entity>)
        ensures
            final(self)@ == old(self)@.advanced(views(interactive_entities@)),
    {
        let ghost obstacles = views(interactive_entities@);
        let before = self.integrate(interactive_entities);

        let below = self.find_hit(interactive_entities, before, Side::Below);
        let above = self.find_hit(interactive_entities, before, Side::Above);
        let right = self.find_hit(interactive_entities, before, Side::Right);
        let left = self.find_hit(interactive_entities, before, Side::Left);

        let mut is_on_ground = false;
        match below {
            Some(i) => {
                assert(obstacles[i as int] == interactive_entities@[i as int]@);
                self.respond(&interactive_entities[i], Side::Below, false);
                is_on_ground = true;
            },
            None => match above {
                Some(i) => {
                    assert(obstacles[i as int] == interactive_entities@[i as int]@);
                    self.respond(&interactive_entities[i], Side::Above, false);
                },
                None => {},
            },
        }
        match right {
            Some(i) => {
                assert(obstacles[i as int] == interactive_entities@[i as int]@);
                self.respond(&interactive_entities[i], Side::Right, is_on_ground);
            },
            None => match left {
                Some(i) => {
                    assert(obstacles[i as int] == interactive_entities@[i as int]@);
                    self.respond(&interactive_entities[i], Side::Left, is_on_ground);
                },
                None => {},
            },
        }
    }
}

} // verus!
