//! Collisions and scoring: aliens against the death line, bullets against
//! aliens.

use vstd::prelude::*;
use crate::config::HIT_SCORE;
use crate::entities::{
    alien_models, bullet_models, death_line, death_line_bounds, Alien, AlienModel, Bullet,
    BulletModel,
};
use crate::game::{GameModel, SpaceInvaders};
use crate::geometry::collide;

verus! {

/// Index of the first alien, at or after `from`, that the bullet hits; the
/// number of aliens if it hits none of them.
pub open spec fn first_hit(bullet: BulletModel, aliens: Seq<AlienModel>, from: int) -> int
    decreases aliens.len() - from,
{
    if from < 0 || from >= aliens.len() {
        aliens.len() as int
    } else if bullet.hits(aliens[from]) {
        from
    } else {
        first_hit(bullet, aliens, from + 1)
    }
}

/// What is left once the bullets have struck.
pub struct HitOutcome {
    /// The bullets that hit nothing, in their old order.
    pub bullets: Seq<BulletModel>,
    /// The aliens that no bullet hit, in their old order.
    pub aliens: Seq<AlienModel>,
    /// How many bullets hit an alien.
    pub hits: nat,
}

/// Lets the bullets strike, oldest first. A bullet destroys the first alien
/// that it overlaps among those still alive and is destroyed with it, so a
/// bullet destroys at most one alien and an alien stops at most one bullet.
pub open spec fn resolve_hits(bullets: Seq<BulletModel>, aliens: Seq<AlienModel>) -> HitOutcome
    decreases bullets.len(),
{
    if bullets.len() == 0 {
        HitOutcome { bullets: Seq::empty(), aliens: aliens, hits: 0 }
    } else {
        let target = first_hit(bullets[0], aliens, 0);
        if target < aliens.len() {
            let rest = resolve_hits(bullets.drop_first(), aliens.remove(target));
            HitOutcome { bullets: rest.bullets, aliens: rest.aliens, hits: rest.hits + 1 }
        } else {
            let rest = resolve_hits(bullets.drop_first(), aliens);
            HitOutcome {
                bullets: seq![bullets[0]] + rest.bullets,
                aliens: rest.aliens,
                hits: rest.hits,
            }
        }
    }
}

impl GameModel {
    /// Whether some alien has reached the death line.
    pub open spec fn breached(self) -> bool {
        exists|i: int| 0 <= i < self.aliens.len() && (#[trigger] self.aliens[i]).on_death_line()
    }

    /// The game after collisions are resolved. If an alien has reached the
    /// death line the round is lost: all aliens are destroyed and the score
    /// stays as it is. Otherwise the bullets strike and every hit scores
    /// [`HIT_SCORE`].
    pub open spec fn check_for_collisions(self) -> GameModel {
        if self.breached() {
            GameModel { running: false, aliens: Seq::empty(), ..self }
        } else {
            let outcome = resolve_hits(self.bullets, self.aliens);
            GameModel {
                bullets: outcome.bullets,
                aliens: outcome.aliens,
                score: (self.score + HIT_SCORE * outcome.hits) as nat,
                ..self
            }
        }
    }

    /// Number of bullets that hit an alien when collisions are resolved.
    pub open spec fn hit_count(self) -> nat {
        if self.breached() {
            0
        } else {
            resolve_hits(self.bullets, self.aliens).hits
        }
    }
}

/// What resolving the collisions of one step brought about.
#[derive(Clone, Copy, Debug, PartialEq, Eq)]
pub struct CollisionReport {
    /// An alien reached the death line: the round was lost in this step.
    pub game_over: bool,
    /// Number of aliens that bullets destroyed in this step.
    pub hits: u64,
}

/// Removing a bullet removes its model.
proof fn lemma_models_after_remove_bullet(bullets: Seq<Bullet>, i: int)
    requires
        0 <= i < bullets.len(),
    ensures
        bullet_models(bullets.remove(i)) == bullet_models(bullets).remove(i),
{
    assert(bullet_models(bullets.remove(i)) =~= bullet_models(bullets).remove(i));
}

/// Removing an alien removes its model.
proof fn lemma_models_after_remove_alien(aliens: Seq<Alien>, j: int)
    requires
        0 <= j < aliens.len(),
    ensures
        alien_models(aliens.remove(j)) == alien_models(aliens).remove(j),
{
    assert(alien_models(aliens.remove(j)) =~= alien_models(aliens).remove(j));
}

/// Resolving the bullets from position `i` on, when the bullet at `i` hits
/// nothing: that bullet stays and the rest is resolved against the same
/// aliens.
proof fn lemma_resolve_skips_a_miss(bullets: Seq<BulletModel>, aliens: Seq<AlienModel>, i: int)
    requires
        0 <= i < bullets.len(),
        first_hit(bullets[i], aliens, 0) >= aliens.len(),
    ensures
        resolve_hits(bullets.skip(i), aliens).bullets == seq![bullets[i]] + resolve_hits(
            bullets.skip(i + 1),
            aliens,
        ).bullets,
        resolve_hits(bullets.skip(i), aliens).aliens == resolve_hits(
            bullets.skip(i + 1),
            aliens,
        ).aliens,
        resolve_hits(bullets.skip(i), aliens).hits == resolve_hits(bullets.skip(i + 1), aliens).hits,
{
    assert(bullets.skip(i).drop_first() =~= bullets.skip(i + 1));
    assert(bullets.skip(i)[0] == bullets[i]);
}

/// Resolving the bullets from position `i` on, when the bullet at `i` hits
/// the alien at `j`: both leave and the rest is resolved against the other
/// aliens.
proof fn lemma_resolve_takes_a_hit(
    bullets: Seq<BulletModel>,
    aliens: Seq<AlienModel>,
    i: int,
    j: int,
)
    requires
        0 <= i < bullets.len(),
        j == first_hit(bullets[i], aliens, 0),
        j < aliens.len(),
    ensures
        resolve_hits(bullets.skip(i), aliens).bullets == resolve_hits(
            bullets.remove(i).skip(i),
            aliens.remove(j),
        ).bullets,
        resolve_hits(bullets.skip(i), aliens).aliens == resolve_hits(
            bullets.remove(i).skip(i),
            aliens.remove(j),
        ).aliens,
        resolve_hits(bullets.skip(i), aliens).hits == resolve_hits(
            bullets.remove(i).skip(i),
            aliens.remove(j),
        ).hits + 1,
{
    assert(bullets.skip(i).drop_first() =~= bullets.remove(i).skip(i));
    assert(bullets.skip(i)[0] == bullets[i]);
}

impl SpaceInvaders {
    /// Tells whether some alien has reached the death line.
    fn any_alien_on_death_line(&self) -> (found: bool)
        ensures
            found == self@.breached(),
    {
        let line = death_line_bounds();
        let mut i: usize = 0;
        while i < self.aliens.len()
            invariant
                i <= self.aliens.len(),
                line@ == death_line(),
                forall|k: int| 0 <= k < i ==> !(#[trigger] self@.aliens[k]).on_death_line(),
            decreases self.aliens.len() - i,
        {
            let alien = self.aliens[i];
            if collide(&alien.bounds(), &line) {
                assert(self@.aliens[i as int].on_death_line());
                return true;
            }
            i += 1;
        }
        false
    }

    /// Finds the first alien that the bullet hits.
    fn find_hit(&self, bullet: &Bullet) -> (target: usize)
        ensures
            target == first_hit(bullet@, self@.aliens, 0),
            target <= self.aliens.len(),
    {
        let shot = bullet.bounds();
        let mut j: usize = 0;
        while j < self.aliens.len()
            invariant
                j <= self.aliens.len(),
                shot@ == bullet@.bounds(),
                first_hit(bullet@, self@.aliens, 0) == first_hit(bullet@, self@.aliens, j as int),
            decreases self.aliens.len() - j,
        {
            let alien = self.aliens[j];
            if collide(&alien.bounds(), &shot) {
                assert(bullet@.hits(self@.aliens[j as int]));
                return j;
            }
            assert(!bullet@.hits(self@.aliens[j as int]));
            j += 1;
        }
        j
    }

    /// Resolves the collisions of one step if the score can be stored
    /// afterwards, and stops half way if it cannot.
    pub(crate) fn try_check_for_collisions(&mut self) -> (report: Option<CollisionReport>)
        requires
            old(self)@.wf(),
        ensures
            report is Some <==> old(self)@.check_for_collisions().counters_fit(),
            report matches Some(r) ==> {
                &&& final(self)@ == old(self)@.check_for_collisions()
                &&& final(self)@.wf()
                &&& r.game_over == old(self)@.breached()
                &&& r.hits == old(self)@.hit_count()
            },
    {
        if self.any_alien_on_death_line() {
            self.running = false;
            self.aliens.clear();
            assert(self@.aliens =~= Seq::empty());
            return Some(CollisionReport { game_over: true, hits: 0 });
        }
        let ghost before = self@;
        let ghost total = resolve_hits(before.bullets, before.aliens);
        let mut hits: u64 = 0;
        let mut i: usize = 0;
        assert(before.bullets.skip(0) =~= before.bullets);
        assert(before.bullets.take(0) =~= Seq::empty());
        while i < self.bullets.len()
            invariant
                i <= self.bullets.len(),
                self@.wf(),
                self@.tank == before.tank,
                self@.level == before.level,
                self@.rows == before.rows,
                self@.columns == before.columns,
                self@.alien_speed == before.alien_speed,
                self@.running == before.running,
                self@.time_since_last_shot == before.time_since_last_shot,
                self.score == before.score + HIT_SCORE * hits,
                hits + self.bullets.len() == before.bullets.len(),
                before == old(self)@,
                !before.breached(),
                total == resolve_hits(before.bullets, before.aliens),
                total.bullets == self@.bullets.take(i as int) + resolve_hits(
                    self@.bullets.skip(i as int),
                    self@.aliens,
                ).bullets,
                total.aliens == resolve_hits(self@.bullets.skip(i as int), self@.aliens).aliens,
                total.hits == hits + resolve_hits(self@.bullets.skip(i as int), self@.aliens).hits,
            decreases self.bullets.len() - i,
        {
            let ghost bullets = self@.bullets;
            let ghost aliens = self@.aliens;
            let bullet = self.bullets[i];
            let target = self.find_hit(&bullet);
            if target < self.aliens.len() {
                proof {
                    lemma_resolve_takes_a_hit(bullets, aliens, i as int, target as int);
                    lemma_models_after_remove_bullet(self.bullets@, i as int);
                    lemma_models_after_remove_alien(self.aliens@, target as int);
                    assert(bullets.remove(i as int).take(i as int) =~= bullets.take(i as int));
                }
                match self.score.checked_add(HIT_SCORE) {
                    Some(score) => {
                        self.score = score;
                    },
                    None => {
                        proof {
                            assert(HIT_SCORE * total.hits >= HIT_SCORE * hits + HIT_SCORE)
                                by (nonlinear_arith)
                                requires
                                    total.hits >= hits + 1,
                            ;
                        }
                        return None;
                    },
                }
                self.bullets.remove(i);
                self.aliens.remove(target);
                hits = hits + 1;
            } else {
                proof {
                    lemma_resolve_skips_a_miss(bullets, aliens, i as int);
                    assert(bullets.take(i as int + 1) =~= bullets.take(i as int) + seq![
                        bullets[i as int],
                    ]);
                    assert(bullets.take(i as int) + (seq![bullets[i as int]] + resolve_hits(
                        bullets.skip(i as int + 1),
                        aliens,
                    ).bullets) =~= (bullets.take(i as int) + seq![bullets[i as int]])
                        + resolve_hits(bullets.skip(i as int + 1), aliens).bullets);
                }
                i += 1;
            }
        }
        proof {
            assert(self@.bullets.skip(i as int) =~= Seq::empty());
            assert(self@.bullets.take(i as int) =~= self@.bullets);
            assert(self@.bullets + Seq::<BulletModel>::empty() =~= self@.bullets);
        }
        Some(CollisionReport { game_over: false, hits })
    }

    /// Resolves the collisions of one step. An alien on the death line ends
    /// the round and clears the swarm; otherwise every bullet destroys the
    /// first live alien that it overlaps, is destroyed with it, and scores
    /// [`HIT_SCORE`].
    pub fn check_for_collisions(&mut self) -> (report: CollisionReport)
        requires
            old(self)@.wf(),
            old(self)@.check_for_collisions().counters_fit(),
        ensures
            final(self)@ == old(self)@.check_for_collisions(),
            final(self)@.wf(),
            report.game_over == old(self)@.breached(),
            report.hits == old(self)@.hit_count(),
    {
        match self.try_check_for_collisions() {
            Some(report) => report,
            // The score fits, so the collisions are resolved to the end.
            None => CollisionReport { game_over: false, hits: 0 },
        }
    }
}

} // verus!
