use vstd::prelude::*;

use crate::entity::{receives, receives_event, string_opt_view, string_views, Entity, EntityView};

pub use crate::entity::EventType;

verus! {

/// A trigger volume standing on its own: a rectangle and the event it runs on entities that
/// overlap it.
#[derive(Debug)]
pub struct Event {
    pub entity: Entity,
    pub event_type: EventType,
    pub receiving_entity_ids: Vec<String>,
}

impl Event {
    /// `entity` overlaps this volume and is one of its receivers.
    pub open spec fn catches(&self, entity: EntityView) -> bool {
        entity.overlaps(self.entity@) && receives(string_views(self.receiving_entity_ids@), entity.id)
    }

    /// Whether this volume's event is run on `entity`.
    pub fn is_triggering(&self, entity: &Entity) -> (r: bool)
        ensures
            r == self.catches(entity@),
    {
        entity.is_inside_entity(&self.entity) && receives_event(&self.receiving_entity_ids, &entity.id)
    }
}

} // verus!
