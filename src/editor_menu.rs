use vstd::prelude::*;

use crate::entity::{views, Entity, EntityView};
use crate::level::{Level, LevelView};

verus! {

/// The pool a placed entity goes to, or the deletion tool.
#[derive(Clone, Copy, Debug, PartialEq, Eq, Structural)]
pub enum LevelEntityVariant {
    Background,
    Indestructible,
    Destructible,
    Enemies,
    MainCharacter,
    Effects,
    Foreground,
    Deletion,
}

/// The variant of the `i`-th button of the editor menu, top to bottom.
pub open spec fn variant_at(i: int) -> LevelEntityVariant {
    if i == 0 {
        LevelEntityVariant::Background
    } else if i == 1 {
        LevelEntityVariant::Indestructible
    } else if i == 2 {
        LevelEntityVariant::Destructible
    } else if i == 3 {
        LevelEntityVariant::Enemies
    } else if i == 4 {
        LevelEntityVariant::MainCharacter
    } else if i == 5 {
        LevelEntityVariant::Effects
    } else if i == 6 {
        LevelEntityVariant::Foreground
    } else {
        LevelEntityVariant::Deletion
    }
}

/// Where the `i`-th button stands on screen: left, top, width, height.
pub open spec fn button_rect(i: int) -> (i32, i32, u32, u32) {
    (0, (30 + 25 * i) as i32, 20, 20)
}

/// The `i`-th button's icon in the interface sprite sheet.
pub open spec fn button_sprite(i: int) -> (i32, i32, u32, u32) {
    ((20 * (i + 1)) as i32, 0, 20, 20)
}

/// `(x, y)` lies strictly inside `rect`.
pub open spec fn strictly_inside(rect: (i32, i32, u32, u32), x: int, y: int) -> bool {
    &&& x > rect.0
    &&& x < rect.0 + rect.2
    &&& y > rect.1
    &&& y < rect.1 + rect.3
}

/// The entities of `s` whose rectangles do not meet `selection`, in their order.
pub open spec fn outside_of(s: Seq<EntityView>, selection: EntityView) -> Seq<EntityView>
    decreases s.len(),
{
    if s.len() == 0 {
        Seq::empty()
    } else {
        let rest = outside_of(s.drop_last(), selection);
        if s.last().overlaps(selection) {
            rest
        } else {
            rest.push(s.last())
        }
    }
}

impl LevelView {
    /// Every pool with the entities that meet `selection` removed.
    pub open spec fn without_overlapping(self, selection: EntityView) -> LevelView {
        LevelView {
            background: outside_of(self.background, selection),
            indestructible: outside_of(self.indestructible, selection),
            destructible: outside_of(self.destructible, selection),
            enemies: outside_of(self.enemies, selection),
            main_character: outside_of(self.main_character, selection),
            effects: outside_of(self.effects, selection),
            foreground: outside_of(self.foreground, selection),
        }
    }

    /// `entity` added at the end of the pool that `variant` names; unchanged for deletion.
    pub open spec fn with_placed(self, variant: LevelEntityVariant, entity: EntityView) -> LevelView {
        match variant {
            LevelEntityVariant::Background => LevelView { background: self.background.push(entity), ..self },
            LevelEntityVariant::Indestructible => LevelView {
                indestructible: self.indestructible.push(entity),
                ..self
            },
            LevelEntityVariant::Destructible => LevelView {
                destructible: self.destructible.push(entity),
                ..self
            },
            LevelEntityVariant::Enemies => LevelView { enemies: self.enemies.push(entity), ..self },
            LevelEntityVariant::MainCharacter => LevelView {
                main_character: self.main_character.push(entity),
                ..self
            },
            LevelEntityVariant::Effects => LevelView { effects: self.effects.push(entity), ..self },
            LevelEntityVariant::Foreground => LevelView { foreground: self.foreground.push(entity), ..self },
            LevelEntityVariant::Deletion => self,
        }
    }
}

/// The level editor's menu: which pool new entities go to.
#[derive(Debug)]
pub struct EditorMenu {
    pub variant: LevelEntityVariant,
}

proof fn lemma_outside_of_push(s: Seq<EntityView>, e: EntityView, selection: EntityView)
    ensures
        outside_of(s.push(e), selection) == if e.overlaps(selection) {
            outside_of(s, selection)
        } else {
            outside_of(s, selection).push(e)
        },
{
    assert(s.push(e).drop_last() =~= s);
}

/// Removes from `pool` every entity whose rectangle meets `selection`.
fn remove_overlapping(pool: &mut Vec<Entity>, selection: &Entity)
    ensures
        views(final(pool)@) == outside_of(views(old(pool)@), selection@),
{
    let mut pending: Vec<Entity> = Vec::new();
    std::mem::swap(pool, &mut pending);
    let ghost initial = pending@;
    let ghost mut k: int = 0;
    assert(views(initial.subrange(0, 0)) =~= Seq::<EntityView>::empty());
    while pending.len() > 0
        invariant
            0 <= k <= initial.len(),
            pending@ == initial.subrange(k, initial.len() as int),
            views(pool@) == outside_of(views(initial.subrange(0, k)), selection@),
        decreases pending@.len(),
    {
        let entity = pending.remove(0);
        assert(entity == initial[k]);
        proof {
            assert(views(initial.subrange(0, k + 1)) =~= views(initial.subrange(0, k)).push(
                entity@,
            ));
            lemma_outside_of_push(views(initial.subrange(0, k)), entity@, selection@);
        }
        if !entity.is_inside_entity(selection) {
            let ghost kept = pool@;
            pool.push(entity);
            assert(views(pool@) =~= views(kept).push(entity@));
        }
        proof {
            k = k + 1;
        }
        assert(pending@ =~= initial.subrange(k, initial.len() as int));
    }
    assert(initial.subrange(0, k) =~= initial);
}

fn push_entity(pool: &mut Vec<Entity>, entity: Entity)
    ensures
        views(final(pool)@) == views(old(pool)@).push(entity@),
{
    pool.push(entity);
    assert(views(pool@) =~= views(old(pool)@).push(entity@));
}

impl EditorMenu {
    /// A menu that places effects.
    pub fn new() -> (r: EditorMenu)
        ensures
            r.variant == LevelEntityVariant::Effects,
    {
        EditorMenu { variant: LevelEntityVariant::Effects }
    }

    /// Selects where the next entity goes.
    pub fn variant(&mut self, variant: LevelEntityVariant)
        ensures
            final(self).variant == variant,
    {
        self.variant = variant;
    }

    /// The menu's buttons, top to bottom: each variant with its place on screen and its icon.
    pub fn get_variant_button_rects() -> (r: Vec<(LevelEntityVariant, (i32, i32, u32, u32), (i32, i32, u32, u32))>)
        ensures
            r@.len() == 8,
            forall|i: int|
                0 <= i < 8 ==> #[trigger] r@[i] == (variant_at(i), button_rect(i), button_sprite(i)),
    {
        let r = vec![
            (LevelEntityVariant::Background, (0, 30, 20, 20), (20, 0, 20, 20)),
            (LevelEntityVariant::Indestructible, (0, 55, 20, 20), (40, 0, 20, 20)),
            (LevelEntityVariant::Destructible, (0, 80, 20, 20), (60, 0, 20, 20)),
            (LevelEntityVariant::Enemies, (0, 105, 20, 20), (80, 0, 20, 20)),
            (LevelEntityVariant::MainCharacter, (0, 130, 20, 20), (100, 0, 20, 20)),
            (LevelEntityVariant::Effects, (0, 155, 20, 20), (120, 0, 20, 20)),
            (LevelEntityVariant::Foreground, (0, 180, 20, 20), (140, 0, 20, 20)),
            (LevelEntityVariant::Deletion, (0, 205, 20, 20), (160, 0, 20, 20)),
        ];
        assert forall|i: int| 0 <= i < 8 implies #[trigger] r@[i] == (
            variant_at(i),
            button_rect(i),
            button_sprite(i),
        ) by {
            if i == 0 {
            } else if i == 1 {
            } else if i == 2 {
            } else if i == 3 {
            } else if i == 4 {
            } else if i == 5 {
            } else if i == 6 {
            } else {
            }
        }
        r
    }

    /// The variant whose button holds the screen point `(x, y)` strictly inside, if any.
    pub fn variant_button_at(x: i32, y: i32) -> (r: Option<LevelEntityVariant>)
        ensures
            r == (if exists|i: int| 0 <= i < 8 && strictly_inside(button_rect(i), x as int, y as int) {
                Some(variant_at(choose|i: int| 0 <= i < 8 && strictly_inside(button_rect(i), x as int, y as int)))
            } else {
                None
            }),
    {
        let buttons = EditorMenu::get_variant_button_rects();
        let mut i: usize = 0;
        while i < buttons.len()
            invariant
                buttons@.len() == 8,
                forall|j: int|
                    0 <= j < 8 ==> #[trigger] buttons@[j] == (variant_at(j), button_rect(j), button_sprite(j)),
                i <= 8,
                forall|j: int| 0 <= j < i ==> !strictly_inside(#[trigger] button_rect(j), x as int, y as int),
            decreases 8 - i,
        {
            let (variant, rect, _) = buttons[i];
            assert(buttons@[i as int] == (variant_at(i as int), button_rect(i as int), button_sprite(i as int)));
            if x > rect.0 && (x as i64) < rect.0 as i64 + rect.2 as i64 && y > rect.1 && (y as i64)
                < rect.1 as i64 + rect.3 as i64 {
                proof {
                    let c = choose|j: int| 0 <= j < 8 && strictly_inside(button_rect(j), x as int, y as int);
                    // buttons are 25 apart and 20 high: only one holds the point
                    assert(c == i as int);
                }
                return Some(variant);
            }
            i = i + 1;
        }
        None
    }

    /// Places `actionable_entity` into the pool the menu names; with the deletion tool,
    /// removes from every pool each entity that meets it instead.
    pub fn create_entity(&mut self, level: &mut Level, actionable_entity: &Entity)
        ensures
            final(self).variant == old(self).variant,
            final(level)@ == (if old(self).variant == LevelEntityVariant::Deletion {
                old(level)@.without_overlapping(actionable_entity@)
            } else {
                old(level)@.with_placed(old(self).variant, actionable_entity@)
            }),
    {
        let entity = actionable_entity.clone();
        match self.variant {
            LevelEntityVariant::Deletion => {
                remove_overlapping(&mut level.background, &entity);
                remove_overlapping(&mut level.indestructible, &entity);
                remove_overlapping(&mut level.destructible, &entity);
                remove_overlapping(&mut level.enemies, &entity);
                remove_overlapping(&mut level.main_character, &entity);
                remove_overlapping(&mut level.effects, &entity);
                remove_overlapping(&mut level.foreground, &entity);
            },
            LevelEntityVariant::Background => push_entity(&mut level.background, entity),
            LevelEntityVariant::Indestructible => push_entity(&mut level.indestructible, entity),
            LevelEntityVariant::Destructible => push_entity(&mut level.destructible, entity),
            LevelEntityVariant::Enemies => push_entity(&mut level.enemies, entity),
            LevelEntityVariant::MainCharacter => push_entity(&mut level.main_character, entity),
            LevelEntityVariant::Effects => push_entity(&mut level.effects, entity),
            LevelEntityVariant::Foreground => push_entity(&mut level.foreground, entity),
        }
    }
}

} // verus!
