use vstd::prelude::*;

use crate::entity::{views, Entity, EntityView};

verus! {

/// The entities of `s` that are not marked dying, in their order.
pub open spec fn survivors(s: Seq<EntityView>) -> Seq<EntityView>
    decreases s.len(),
{
    if s.len() == 0 {
        Seq::empty()
    } else {
        let rest = survivors(s.drop_last());
        if s.last().is_dying() {
            rest
        } else {
            rest.push(s.last())
        }
    }
}

/// Every entity of `s` advanced by one tick against `obstacles`.
pub open spec fn advanced_all(s: Seq<EntityView>, obstacles: Seq<EntityView>) -> Seq<EntityView> {
    s.map_values(|e: EntityView| e.advanced(obstacles))
}

/// A pool after one tick: each entity advanced, then those marked dying removed.
pub open spec fn pool_after_tick(pool: Seq<EntityView>, obstacles: Seq<EntityView>) -> Seq<EntityView> {
    survivors(advanced_all(pool, obstacles))
}

/// No entity of `s` is marked dying.
pub open spec fn none_dying(s: Seq<EntityView>) -> bool {
    forall|i: int| 0 <= i < s.len() ==> !(#[trigger] s[i]).is_dying()
}

/// The seven pools of a level, each as the views of its entities.
pub struct LevelView {
    pub background: Seq<EntityView>,
    pub indestructible: Seq<EntityView>,
    pub destructible: Seq<EntityView>,
    pub enemies: Seq<EntityView>,
    pub main_character: Seq<EntityView>,
    pub effects: Seq<EntityView>,
    pub foreground: Seq<EntityView>,
}

impl LevelView {
    /// One tick: every pool but the decorative background and foreground is advanced against
    /// the same obstacles and swept of dying entities.
    pub open spec fn after_tick(self, obstacles: Seq<EntityView>) -> LevelView {
        LevelView {
            background: self.background,
            indestructible: pool_after_tick(self.indestructible, obstacles),
            destructible: pool_after_tick(self.destructible, obstacles),
            enemies: pool_after_tick(self.enemies, obstacles),
            main_character: pool_after_tick(self.main_character, obstacles),
            effects: pool_after_tick(self.effects, obstacles),
            foreground: self.foreground,
        }
    }
}

/// A level: seven ordered pools of entities.
#[derive(Debug)]
pub struct Level {
    pub background: Vec<Entity>,
    pub indestructible: Vec<Entity>,
    pub destructible: Vec<Entity>,
    pub enemies: Vec<Entity>,
    pub main_character: Vec<Entity>,
    pub effects: Vec<Entity>,
    pub foreground: Vec<Entity>,
}

impl View for Level {
    type V = LevelView;

    open spec fn view(&self) -> LevelView {
        LevelView {
            background: views(self.background@),
            indestructible: views(self.indestructible@),
            destructible: views(self.destructible@),
            enemies: views(self.enemies@),
            main_character: views(self.main_character@),
            effects: views(self.effects@),
            foreground: views(self.foreground@),
        }
    }
}

proof fn lemma_survivors_push(s: Seq<EntityView>, e: EntityView)
    ensures
        survivors(s.push(e)) == if e.is_dying() {
            survivors(s)
        } else {
            survivors(s).push(e)
        },
{
    assert(s.push(e).drop_last() =~= s);
}

proof fn lemma_advanced_prefix(pool: Seq<Entity>, k: int, obstacles: Seq<EntityView>)
    requires
        0 <= k < pool.len(),
    ensures
        advanced_all(views(pool.subrange(0, k + 1)), obstacles) == advanced_all(
            views(pool.subrange(0, k)),
            obstacles,
        ).push(pool[k]@.advanced(obstacles)),
{
    assert(advanced_all(views(pool.subrange(0, k + 1)), obstacles) =~= advanced_all(
        views(pool.subrange(0, k)),
        obstacles,
    ).push(pool[k]@.advanced(obstacles)));
}

proof fn lemma_survivors_none_dying(s: Seq<EntityView>)
    ensures
        none_dying(survivors(s)),
    decreases s.len(),
{
    if s.len() > 0 {
        lemma_survivors_none_dying(s.drop_last());
    }
}

proof fn lemma_survivors_keep_living(s: Seq<EntityView>)
    ensures
        forall|i: int|
            0 <= i < s.len() && !s[i].is_dying() ==> #[trigger] survivors(s).contains(s[i]),
    decreases s.len(),
{
    if s.len() > 0 {
        let rest = s.drop_last();
        lemma_survivors_keep_living(rest);
        assert forall|i: int| 0 <= i < s.len() && !s[i].is_dying() implies #[trigger] survivors(
            s,
        ).contains(s[i]) by {
            if i == s.len() - 1 {
                assert(survivors(s) == survivors(rest).push(s[i]));
                assert(survivors(s)[survivors(s).len() - 1] == s[i]);
            } else {
                assert(rest[i] == s[i]);
                assert(survivors(rest).contains(s[i]));
                let j = choose|j: int| 0 <= j < survivors(rest).len() && survivors(rest)[j] == s[i];
                if !s.last().is_dying() {
                    assert(survivors(s)[j] == s[i]);
                }
            }
        }
    }
}

proof fn lemma_survivors_of_living(s: Seq<EntityView>)
    requires
        none_dying(s),
    ensures
        survivors(s) == s,
    decreases s.len(),
{
    if s.len() > 0 {
        let rest = s.drop_last();
        assert forall|i: int| 0 <= i < rest.len() implies !(#[trigger] rest[i]).is_dying() by {
            assert(rest[i] == s[i]);
        }
        lemma_survivors_of_living(rest);
        assert(!s[s.len() - 1].is_dying());
        assert(rest.push(s.last()) =~= s);
    }
}

/// Sweeping a pool leaves no dying entity in it, sweeping it again removes nothing more, and
/// every entity whose advanced state is not dying stays, advanced.
pub proof fn lemma_pool_sweep(pool: Seq<EntityView>, obstacles: Seq<EntityView>)
    ensures
        none_dying(pool_after_tick(pool, obstacles)),
        survivors(pool_after_tick(pool, obstacles)) == pool_after_tick(pool, obstacles),
        forall|i: int|
            0 <= i < pool.len() && !(#[trigger] pool[i].advanced(obstacles)).is_dying()
                ==> pool_after_tick(pool, obstacles).contains(pool[i].advanced(obstacles)),
{
    let advanced = advanced_all(pool, obstacles);
    lemma_survivors_none_dying(advanced);
    lemma_survivors_of_living(survivors(advanced));
    lemma_survivors_keep_living(advanced);
    assert forall|i: int|
        0 <= i < pool.len() && !(#[trigger] pool[i].advanced(obstacles)).is_dying()
            implies pool_after_tick(pool, obstacles).contains(pool[i].advanced(obstacles)) by {
        assert(advanced[i] == pool[i].advanced(obstacles));
    }
}

/// After a tick no pool of the level holds an entity marked dying, given that the
/// decorative background and foreground, which a tick leaves alone, held none.
pub proof fn lemma_tick_leaves_no_dying(level: LevelView, obstacles: Seq<EntityView>)
    requires
        none_dying(level.background),
        none_dying(level.foreground),
    ensures
        ({
            let next = level.after_tick(obstacles);
            &&& none_dying(next.background)
            &&& none_dying(next.indestructible)
            &&& none_dying(next.destructible)
            &&& none_dying(next.enemies)
            &&& none_dying(next.main_character)
            &&& none_dying(next.effects)
            &&& none_dying(next.foreground)
        }),
{
    lemma_pool_sweep(level.indestructible, obstacles);
    lemma_pool_sweep(level.destructible, obstacles);
    lemma_pool_sweep(level.enemies, obstacles);
    lemma_pool_sweep(level.main_character, obstacles);
    lemma_pool_sweep(level.effects, obstacles);
}

fn append_copies(into: &mut Vec<Entity>, from: &Vec<Entity>)
    ensures
        views(final(into)@) == views(old(into)@) + views(from@),
{
    let ghost start = views(into@);
    let mut i: usize = 0;
    while i < from.len()
        invariant
            i <= from@.len(),
            views(into@) == start + views(from@.subrange(0, i as int)),
        decreases from@.len() - i,
    {
        let e = from[i].clone();
        let ghost kept = into@;
        into.push(e);
        assert(views(into@) =~= views(kept).push(e@));
        assert(views(from@.subrange(0, i + 1)) =~= views(from@.subrange(0, i as int)).push(
            from@[i as int]@,
        ));
        assert(start + views(from@.subrange(0, i + 1)) =~= (start + views(
            from@.subrange(0, i as int),
        )).push(e@));
        i = i + 1;
    }
    assert(from@.subrange(0, i as int) =~= from@);
}

impl Level {
    /// The obstacles of one tick: copies of the indestructible, destructible and enemy
    /// pools, in that order, taken before any entity moves.
    pub fn interactive_entities(&self) -> (r: Vec<Entity>)
        ensures
            views(r@) == self@.indestructible + self@.destructible + self@.enemies,
    {
        let mut r: Vec<Entity> = Vec::new();
        assert(views(r@) =~= Seq::<EntityView>::empty());
        append_copies(&mut r, &self.indestructible);
        assert(Seq::<EntityView>::empty() + self@.indestructible =~= self@.indestructible);
        append_copies(&mut r, &self.destructible);
        append_copies(&mut r, &self.enemies);
        r
    }

    /// Advances every entity of `container` by one tick against `entities`, then removes
    /// those marked dying.
    fn next_container_state(container: &mut Vec<Entity>, entities: &Vec<Entity>)
        ensures
            views(final(container)@) == pool_after_tick(views(old(container)@), views(entities@)),
    {
        let ghost obstacles = views(entities@);
        let mut pending: Vec<Entity> = Vec::new();
        std::mem::swap(container, &mut pending);
        let ghost initial = pending@;
        let ghost mut k: int = 0;
        assert(views(initial.subrange(0, 0)) =~= Seq::<EntityView>::empty());
        while pending.len() > 0
            invariant
                0 <= k <= initial.len(),
                pending@ == initial.subrange(k, initial.len() as int),
                views(container@) == survivors(
                    advanced_all(views(initial.subrange(0, k)), obstacles),
                ),
                obstacles == views(entities@),
            decreases pending@.len(),
        {
            let mut entity = pending.remove(0);
            assert(entity == initial[k]);
            entity.next_state(entities);
            let dying = entity.is_dying();
            proof {
                lemma_advanced_prefix(initial, k, obstacles);
                lemma_survivors_push(
                    advanced_all(views(initial.subrange(0, k)), obstacles),
                    entity@,
                );
            }
            if !dying {
                let ghost kept = container@;
                container.push(entity);
                assert(views(container@) =~= views(kept).push(entity@));
            }
            proof {
                k = k + 1;
            }
            assert(pending@ =~= initial.subrange(k, initial.len() as int));
        }
        assert(initial.subrange(0, k) =~= initial);
    }

    /// One tick of the level: the main character, effects, destructible, indestructible and
    /// enemy pools are advanced in that order against `entities`, a snapshot taken before the
    /// tick, and swept of dying entities; background and foreground stay as they are.
    pub fn next_state(&mut self, entities: &Vec<Entity>)
        ensures
            final(self)@ == old(self)@.after_tick(views(entities@)),
    {
        Level::next_container_state(&mut self.main_character, entities);
        Level::next_container_state(&mut self.effects, entities);
        Level::next_container_state(&mut self.destructible, entities);
        Level::next_container_state(&mut self.indestructible, entities);
        Level::next_container_state(&mut self.enemies, entities);
    }
}

} // verus!
