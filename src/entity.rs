use vstd::prelude::*;

use crate::fixed::{fx_add, whole_units, Fixed};

verus! {

/// What a trigger volume does to an entity that it catches.
#[derive(Clone, Copy, Debug, PartialEq, Eq, Structural)]
pub enum EventType {
    Kill,
    Teleport(Fixed, Fixed),
}

/// A scripted effect carried by an entity, run on others that meet it.
/// With no receiving ids it is run on every entity; otherwise only on those whose id is listed.
#[derive(Debug)]
pub struct Event {
    pub event_type: EventType,
    pub receiving_entity_ids: Vec<String>,
}

pub struct EventView {
    pub event_type: EventType,
    pub receiving_entity_ids: Seq<Seq<char>>,
}

pub open spec fn string_views(s: Seq<String>) -> Seq<Seq<char>> {
    s.map_values(|x: String| x@)
}

impl View for Event {
    type V = EventView;

    open spec fn view(&self) -> EventView {
        EventView {
            event_type: self.event_type,
            receiving_entity_ids: string_views(self.receiving_entity_ids@),
        }
    }
}

/// An axis-aligned rectangle moving in the world.
/// Positions, speeds and material factors are fixed-point numbers; one unit of `dimensions`
/// is one whole unit of position.
#[derive(Debug)]
pub struct Entity {
    pub sprite_sheet_rect: Option<(i32, i32, u32, u32)>,
    pub aim_direction: Option<Fixed>,
    pub bounciness: Fixed,
    pub slippiness: Fixed,
    pub dimensions: (u32, u32),
    pub position: (Fixed, Fixed),
    pub id: Option<String>,
    pub event: Option<Event>,
    pub health: Option<i32>,
    pub damage_factor: Option<Fixed>,
    pub step_height: Fixed,
    pub velocity: (Fixed, Fixed),
    pub acceleration: (Fixed, Fixed),
    pub parallax: (Fixed, Fixed),
}

/// An entity as plain values: every fixed-point number as the integer count of its thousandths.
pub struct EntityView {
    pub sprite_sheet_rect: Option<(i32, i32, u32, u32)>,
    pub aim_direction: Option<int>,
    pub bounciness: int,
    pub slippiness: int,
    pub dimensions: (u32, u32),
    pub position: (int, int),
    pub id: Option<Seq<char>>,
    pub event: Option<EventView>,
    pub health: Option<i32>,
    pub damage_factor: Option<int>,
    pub step_height: int,
    pub velocity: (int, int),
    pub acceleration: (int, int),
    pub parallax: (int, int),
}

pub open spec fn fixed_opt_view(v: Option<Fixed>) -> Option<int> {
    match v {
        Some(f) => Some(f@),
        None => None,
    }
}

pub open spec fn string_opt_view(v: Option<String>) -> Option<Seq<char>> {
    match v {
        Some(s) => Some(s@),
        None => None,
    }
}

pub open spec fn event_opt_view(v: Option<Event>) -> Option<EventView> {
    match v {
        Some(e) => Some(e@),
        None => None,
    }
}

impl View for Entity {
    type V = EntityView;

    open spec fn view(&self) -> EntityView {
        EntityView {
            sprite_sheet_rect: self.sprite_sheet_rect,
            aim_direction: fixed_opt_view(self.aim_direction),
            bounciness: self.bounciness@,
            slippiness: self.slippiness@,
            dimensions: self.dimensions,
            position: (self.position.0@, self.position.1@),
            id: string_opt_view(self.id),
            event: event_opt_view(self.event),
            health: self.health,
            damage_factor: fixed_opt_view(self.damage_factor),
            step_height: self.step_height@,
            velocity: (self.velocity.0@, self.velocity.1@),
            acceleration: (self.acceleration.0@, self.acceleration.1@),
            parallax: (self.parallax.0@, self.parallax.1@),
        }
    }
}

impl Clone for Event {
    fn clone(&self) -> (r: Event)
        ensures
            r@ == self@,
    {
        let ids = self.receiving_entity_ids.clone();
        assert(ids@ =~= self.receiving_entity_ids@);
        Event { event_type: self.event_type, receiving_entity_ids: ids }
    }
}

impl Clone for Entity {
    fn clone(&self) -> (r: Entity)
        ensures
            r@ == self@,
    {
        let id = match &self.id {
            Some(s) => Some(s.clone()),
            None => None,
        };
        let event = match &self.event {
            Some(ev) => Some(ev.clone()),
            None => None,
        };
        Entity {
            sprite_sheet_rect: self.sprite_sheet_rect,
            aim_direction: self.aim_direction,
            bounciness: self.bounciness,
            slippiness: self.slippiness,
            dimensions: self.dimensions,
            position: self.position,
            id,
            event,
            health: self.health,
            damage_factor: self.damage_factor,
            step_height: self.step_height,
            velocity: self.velocity,
            acceleration: self.acceleration,
            parallax: self.parallax,
        }
    }
}

/// The views of a sequence of entities.
pub open spec fn views(s: Seq<Entity>) -> Seq<EntityView> {
    s.map_values(|e: Entity| e@)
}

/// The id that marks an entity for removal.
pub open spec fn dying_id() -> Seq<char> {
    "dying"@
}

impl EntityView {
    /// Width in thousandths of a unit.
    pub open spec fn width(self) -> int {
        self.dimensions.0 as int * 1000
    }

    /// Height in thousandths of a unit.
    pub open spec fn height(self) -> int {
        self.dimensions.1 as int * 1000
    }

    pub open spec fn is_dying(self) -> bool {
        self.id == Some(dying_id())
    }

    /// The rectangles of `self` and `other` meet; edges that only touch count.
    pub open spec fn overlaps(self, other: EntityView) -> bool {
        &&& fx_add(self.position.0, self.width()) >= other.position.0
        &&& fx_add(self.position.1, self.height()) >= other.position.1
        &&& self.position.0 <= fx_add(other.position.0, other.width())
        &&& self.position.1 <= fx_add(other.position.1, other.height())
    }

    /// `ground`'s top lies, in whole units, exactly at `self`'s bottom, and `ground` reaches
    /// past one of `self`'s vertical edges.
    pub open spec fn rests_on(self, ground: EntityView) -> bool {
        let left = self.position.0;
        let right = fx_add(self.position.0, self.width());
        let g_left = ground.position.0;
        let g_right = fx_add(ground.position.0, ground.width());
        &&& whole_units(ground.position.1) == whole_units(self.position.1)
            + self.dimensions.1 as int
        &&& ((g_left < left && g_right > left) || (g_left < right && g_right > right))
    }

    /// The event that `volume` carries is run on `self`.
    pub open spec fn is_triggered_by(self, volume: EntityView) -> bool {
        match volume.event {
            Some(ev) => receives(ev.receiving_entity_ids, self.id),
            None => false,
        }
    }

    pub open spec fn marked_dying(self) -> EntityView {
        EntityView { id: Some(dying_id()), ..self }
    }

    /// `self` after an event of the given type has been run on it.
    pub open spec fn after_event(self, event_type: EventType) -> EntityView {
        match event_type {
            EventType::Teleport(x, y) => EntityView { position: (x@, y@), ..self },
            EventType::Kill => self.marked_dying(),
        }
    }
}

/// An event with receiving ids `ids` is run on an entity with id `id`: every entity when the
/// list is empty, else only one whose id is listed.
pub open spec fn receives(ids: Seq<Seq<char>>, id: Option<Seq<char>>) -> bool {
    ids.len() == 0 || match id {
        Some(i) => ids.contains(i),
        None => false,
    }
}

pub(crate) fn receives_event(ids: &Vec<String>, id: &Option<String>) -> (r: bool)
    ensures
        r == receives(string_views(ids@), string_opt_view(*id)),
{
    if ids.len() == 0 {
        return true;
    }
    match id {
        Some(own) => {
            let ghost wanted = string_views(ids@);
            let mut i: usize = 0;
            while i < ids.len()
                invariant
                    i <= ids@.len(),
                    wanted == string_views(ids@),
                    *id == Some(*own),
                    forall|j: int| 0 <= j < i ==> wanted[j] != own@,
                decreases ids@.len() - i,
            {
                if ids[i] == *own {
                    assert(wanted[i as int] == ids@[i as int]@);
                    assert(wanted.contains(own@));
                    return true;
                }
                i = i + 1;
            }
            assert(!wanted.contains(own@));
            false
        },
        None => false,
    }
}

pub fn default_receiving_entity_ids() -> (r: Vec<String>)
    ensures
        r@.len() == 0,
{
    Vec::new()
}

pub fn default_bounciness() -> (r: Fixed)
    ensures
        r@ == 400,
{
    Fixed::from_milli(400)
}

pub fn default_slippiness() -> (r: Fixed)
    ensures
        r@ == 800,
{
    Fixed::from_milli(800)
}

pub fn default_step_height() -> (r: Fixed)
    ensures
        r@ == 0,
{
    Fixed::zero()
}

pub fn default_velocity() -> (r: (Fixed, Fixed))
    ensures
        r.0@ == 0 && r.1@ == 0,
{
    (Fixed::zero(), Fixed::zero())
}

pub fn default_acceleration() -> (r: (Fixed, Fixed))
    ensures
        r.0@ == 0 && r.1@ == 0,
{
    (Fixed::zero(), Fixed::zero())
}

pub fn default_parallax() -> (r: (Fixed, Fixed))
    ensures
        r.0@ == 1000 && r.1@ == 1000,
{
    (Fixed::one(), Fixed::one())
}

impl Entity {
    /// A plain entity at `(x, y)`: default materials, at rest, pulled down by one unit per tick.
    pub fn new(x: Fixed, y: Fixed, width: u32, height: u32) -> (r: Entity)
        ensures
            r@ == (EntityView {
                sprite_sheet_rect: None,
                aim_direction: None,
                bounciness: 400,
                slippiness: 800,
                dimensions: (width, height),
                position: (x@, y@),
                id: None,
                event: None,
                health: None,
                damage_factor: None,
                step_height: 0,
                velocity: (0, 0),
                acceleration: (0, 1000),
                parallax: (1000, 1000),
            }),
    {
        Entity {
            id: None,
            step_height: default_step_height(),
            sprite_sheet_rect: None,
            aim_direction: None,
            event: None,
            health: None,
            damage_factor: None,
            bounciness: default_bounciness(),
            slippiness: default_slippiness(),
            dimensions: (width, height),
            position: (x, y),
            velocity: default_velocity(),
            acceleration: (Fixed::zero(), Fixed::one()),
            parallax: default_parallax(),
        }
    }

    pub fn parallax_x(self, parallax_x: Fixed) -> (r: Entity)
        ensures
            r@ == (EntityView { parallax: (parallax_x@, self@.parallax.1), ..self@ }),
    {
        let mut e = self;
        e.parallax.0 = parallax_x;
        e
    }

    pub fn parallax_y(self, parallax_y: Fixed) -> (r: Entity)
        ensures
            r@ == (EntityView { parallax: (self@.parallax.0, parallax_y@), ..self@ }),
    {
        let mut e = self;
        e.parallax.1 = parallax_y;
        e
    }

    pub fn velocity_x(self, velocity_x: Fixed) -> (r: Entity)
        ensures
            r@ == (EntityView { velocity: (velocity_x@, self@.velocity.1), ..self@ }),
    {
        let mut e = self;
        e.velocity.0 = velocity_x;
        e
    }

    pub fn velocity_y(self, velocity_y: Fixed) -> (r: Entity)
        ensures
            r@ == (EntityView { velocity: (self@.velocity.0, velocity_y@), ..self@ }),
    {
        let mut e = self;
        e.velocity.1 = velocity_y;
        e
    }

    pub fn bounciness(self, bounciness: Fixed) -> (r: Entity)
        ensures
            r@ == (EntityView { bounciness: bounciness@, ..self@ }),
    {
        let mut e = self;
        e.bounciness = bounciness;
        e
    }

    pub fn id(self, id: String) -> (r: Entity)
        ensures
            r@ == (EntityView { id: Some(id@), ..self@ }),
    {
        let mut e = self;
        e.id = Some(id);
        e
    }

    pub fn step_height(self, step_height: Fixed) -> (r: Entity)
        ensures
            r@ == (EntityView { step_height: step_height@, ..self@ }),
    {
        let mut e = self;
        e.step_height = step_height;
        e
    }

    pub fn damage_factor(self, damage_factor: Option<Fixed>) -> (r: Entity)
        ensures
            r@ == (EntityView { damage_factor: fixed_opt_view(damage_factor), ..self@ }),
    {
        let mut e = self;
        e.damage_factor = damage_factor;
        e
    }

    /// Whether this entity carries the id that marks it for removal.
    pub fn is_dying(&self) -> (r: bool)
        ensures
            r == self@.is_dying(),
    {
        match &self.id {
            Some(id) => {
                let dying = String::from_str("dying");
                proof {
                    reveal_strlit("dying");
                }
                *id == dying
            },
            None => false,
        }
    }

    /// The rectangles of `self` and `entity` meet; edges that only touch count.
    pub fn is_inside_entity(&self, entity: &Entity) -> (r: bool)
        ensures
            r == self@.overlaps(entity@),
    {
        let right = self.position.0.add(Fixed::from_length(self.dimensions.0));
        let bottom = self.position.1.add(Fixed::from_length(self.dimensions.1));
        let other_right = entity.position.0.add(Fixed::from_length(entity.dimensions.0));
        let other_bottom = entity.position.1.add(Fixed::from_length(entity.dimensions.1));
        right.milli >= entity.position.0.milli && bottom.milli >= entity.position.1.milli
            && self.position.0.milli <= other_right.milli && self.position.1.milli <= other_bottom.milli
    }

    /// The event that `entity` carries is run on `self`.
    pub fn is_triggering(&self, entity: &Entity) -> (r: bool)
        ensures
            r == self@.is_triggered_by(entity@),
    {
        match &entity.event {
            Some(event) => receives_event(&event.receiving_entity_ids, &self.id),
            None => false,
        }
    }

    /// Runs `event` on this entity: a teleport moves it, a kill marks it for removal.
    pub fn run_event(&mut self, event: &Event)
        ensures
            final(self)@ == old(self)@.after_event(event.event_type),
    {
        match event.event_type {
            EventType::Teleport(x, y) => {
                self.position.0 = x;
                self.position.1 = y;
            },
            EventType::Kill => {
                self.id = Some(String::from_str("dying"));
                proof {
                    reveal_strlit("dying");
                }
            },
        }
    }
}

} // verus!
