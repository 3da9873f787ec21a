//! The entities a match tracks by id: the long-lived playfield pieces, and every ball
//! in play with its Insane-mode speed multiplier.

use vstd::prelude::*;
use std::collections::HashMap;
use crate::types::Side;

verus! {

broadcast use vstd::std_specs::hash::group_hash_axioms;

/// An entity of the engine's world, by its id.
pub type EntityId = u64;

/// Handles to the long-lived playfield entities, spawned once at start-up.
#[derive(Debug)]
pub struct Playfield {
    pub court: Option<EntityId>,
    pub wall_strips: Vec<EntityId>,
    pub backdrop: Option<EntityId>,
    pub left_paddle: Option<EntityId>,
    pub right_paddle: Option<EntityId>,
    pub left_grill: Option<EntityId>,
    pub right_grill: Option<EntityId>,
    pub left_goal: Option<EntityId>,
    pub right_goal: Option<EntityId>,
}

impl Playfield {
    /// A playfield before anything is spawned.
    pub fn new() -> (playfield: Playfield)
        ensures
            playfield.court is None,
            playfield.wall_strips@.len() == 0,
            playfield.backdrop is None,
            playfield.left_paddle is None,
            playfield.right_paddle is None,
            playfield.left_grill is None,
            playfield.right_grill is None,
            playfield.left_goal is None,
            playfield.right_goal is None,
    {
        Playfield {
            court: None,
            wall_strips: Vec::new(),
            backdrop: None,
            left_paddle: None,
            right_paddle: None,
            left_grill: None,
            right_grill: None,
            left_goal: None,
            right_goal: None,
        }
    }

    /// The tong that defends `side`.
    pub fn paddle(&self, side: Side) -> (paddle: Option<EntityId>)
        ensures
            side == Side::Left ==> paddle == self.left_paddle,
            side == Side::Right ==> paddle == self.right_paddle,
    {
        match side {
            Side::Left => self.left_paddle,
            Side::Right => self.right_paddle,
        }
    }

    /// The grill that stands behind `side`'s tong.
    pub fn grill(&self, side: Side) -> (grill: Option<EntityId>)
        ensures
            side == Side::Left ==> grill == self.left_grill,
            side == Side::Right ==> grill == self.right_grill,
    {
        match side {
            Side::Left => self.left_grill,
            Side::Right => self.right_grill,
        }
    }
}

/// Every ball in play. The primary ball always exists during a match; extras come from
/// Ridiculous mode and the multi-ball pickup. When the primary is scored, an extra is
/// promoted in its place.
///
/// Each ball's speed multiplier is a power of two: it starts at one and Insane mode
/// doubles it on every tong hit, so it is kept as how many times it was doubled, and a
/// ball with no entry has been doubled zero times.
pub struct Balls {
    pub primary: Option<EntityId>,
    pub extras: Vec<EntityId>,
    pub speed_doublings: HashMap<EntityId, u32>,
}

/// Every ball `primary` and `extras` hold, primary first.
pub open spec fn ball_list(primary: Option<EntityId>, extras: Seq<EntityId>) -> Seq<EntityId> {
    match primary {
        Some(p) => seq![p] + extras,
        None => extras,
    }
}

/// `s` with every occurrence of `x` taken out, the rest in order.
pub open spec fn without(s: Seq<EntityId>, x: EntityId) -> Seq<EntityId>
    decreases s.len(),
{
    if s.len() == 0 {
        s
    } else if s.last() == x {
        without(s.drop_last(), x)
    } else {
        without(s.drop_last(), x).push(s.last())
    }
}

/// The primary and the extras once `ball` is forgotten: a primary leaving promotes the
/// last extra (none, when there is none); any other ball is taken out of the extras.
pub open spec fn after_remove(primary: Option<EntityId>, extras: Seq<EntityId>, ball: EntityId) -> (
    Option<EntityId>,
    Seq<EntityId>,
) {
    if primary == Some(ball) {
        if extras.len() > 0 {
            (Some(extras.last()), extras.drop_last())
        } else {
            (None, extras)
        }
    } else {
        (primary, without(extras, ball))
    }
}

/// What `without` keeps: every element but `x`, and no element twice that was not
/// twice before.
proof fn lemma_without(s: Seq<EntityId>, x: EntityId)
    ensures
        forall|y: EntityId| without(s, x).contains(y) <==> (s.contains(y) && y != x),
        s.no_duplicates() ==> without(s, x).no_duplicates(),
    decreases s.len(),
{
    if s.len() == 0 {
        assert forall|y: EntityId| !without(s, x).contains(y) && !s.contains(y) by {}
    } else {
        let init = s.drop_last();
        lemma_without(init, x);
        assert forall|y: EntityId| s.contains(y) <==> (init.contains(y) || y == s.last()) by {
            if s.contains(y) {
                let i = choose|i: int| 0 <= i < s.len() && s[i] == y;
                if i < s.len() - 1 {
                    assert(init[i] == y);
                }
            }
            if init.contains(y) {
                let i = choose|i: int| 0 <= i < init.len() && init[i] == y;
                assert(s[i] == y);
            }
            if y == s.last() {
                assert(s[s.len() - 1] == y);
            }
        }
        if s.no_duplicates() {
            assert(init.no_duplicates()) by {
                assert forall|i: int, j: int| 0 <= i < init.len() && 0 <= j < init.len() && i != j
                    implies init[i] != init[j] by {
                    assert(init[i] == s[i] && init[j] == s[j]);
                }
            }
            assert(!init.contains(s.last())) by {
                if init.contains(s.last()) {
                    let i = choose|i: int| 0 <= i < init.len() && init[i] == s.last();
                    assert(s[i] == s[s.len() - 1]);
                }
            }
        }
        if s.last() != x {
            let w = without(init, x);
            assert forall|y: EntityId| w.push(s.last()).contains(y) <==> (w.contains(y) || y == s.last()) by {
                if w.push(s.last()).contains(y) {
                    let i = choose|i: int| 0 <= i < w.len() + 1 && w.push(s.last())[i] == y;
                    if i < w.len() {
                        assert(w[i] == y);
                    }
                }
                if w.contains(y) {
                    let i = choose|i: int| 0 <= i < w.len() && w[i] == y;
                    assert(w.push(s.last())[i] == y);
                }
                if y == s.last() {
                    assert(w.push(s.last())[w.len() as int] == y);
                }
            }
            assert(without(s, x) == w.push(s.last()));
            if s.no_duplicates() {
                assert(w.push(s.last()).no_duplicates()) by {
                    assert forall|i: int, j: int| 0 <= i < w.len() + 1 && 0 <= j < w.len() + 1 && i != j
                        implies w.push(s.last())[i] != w.push(s.last())[j] by {
                        if i < w.len() && j < w.len() {
                            assert(w.push(s.last())[i] == w[i]);
                            assert(w.push(s.last())[j] == w[j]);
                        } else if i < w.len() {
                            assert(w.contains(w[i]));
                        } else if j < w.len() {
                            assert(w.contains(w[j]));
                        }
                    }
                }
            }
        }
    }
}

/// Forgetting a ball keeps the bookkeeping sound, and forgets exactly that ball: no
/// ball is then held twice, a primary is still there while any ball lives, and the
/// balls left are the ones before, but for `ball`.
pub proof fn lemma_remove_forgets_exactly_that_ball(
    primary: Option<EntityId>,
    extras: Seq<EntityId>,
    ball: EntityId,
)
    requires
        ball_list(primary, extras).no_duplicates(),
        primary is None ==> extras.len() == 0,
    ensures
        ({
            let (p, e) = after_remove(primary, extras, ball);
            &&& ball_list(p, e).no_duplicates()
            &&& p is None ==> e.len() == 0
            &&& forall|y: EntityId| ball_list(p, e).contains(y) <==> (ball_list(primary, extras).contains(y) && y != ball)
        }),
{
    let all = ball_list(primary, extras);
    let (p, e) = after_remove(primary, extras, ball);
    match primary {
        Some(q) => {
            assert(all =~= seq![q] + extras);
            assert forall|i: int| 0 <= i < extras.len() implies all[i + 1] == extras[i] by {}
            assert(extras.no_duplicates()) by {
                assert forall|i: int, j: int| 0 <= i < extras.len() && 0 <= j < extras.len() && i != j
                    implies extras[i] != extras[j] by {
                    assert(all[i + 1] == extras[i] && all[j + 1] == extras[j]);
                }
            }
            assert(!extras.contains(q)) by {
                if extras.contains(q) {
                    let i = choose|i: int| 0 <= i < extras.len() && extras[i] == q;
                    assert(all[i + 1] == all[0]);
                }
            }
            assert forall|y: EntityId| all.contains(y) <==> (y == q || extras.contains(y)) by {
                if all.contains(y) {
                    let i = choose|i: int| 0 <= i < all.len() && all[i] == y;
                    if i > 0 {
                        assert(extras[i - 1] == y);
                    }
                }
                if extras.contains(y) {
                    let i = choose|i: int| 0 <= i < extras.len() && extras[i] == y;
                    assert(all[i + 1] == y);
                }
                if y == q {
                    assert(all[0] == y);
                }
            }
            if q == ball {
                if extras.len() > 0 {
                    let last = extras.last();
                    let init = extras.drop_last();
                    let l = ball_list(p, e);
                    assert(l =~= seq![last] + init);
                    assert(!init.contains(last)) by {
                        if init.contains(last) {
                            let i = choose|i: int| 0 <= i < init.len() && init[i] == last;
                            assert(extras[i] == extras[extras.len() - 1]);
                        }
                    }
                    assert forall|y: EntityId| extras.contains(y) <==> (init.contains(y) || y == last) by {
                        if extras.contains(y) {
                            let i = choose|i: int| 0 <= i < extras.len() && extras[i] == y;
                            if i < extras.len() - 1 {
                                assert(init[i] == y);
                            }
                        }
                        if init.contains(y) {
                            let i = choose|i: int| 0 <= i < init.len() && init[i] == y;
                            assert(extras[i] == y);
                        }
                        if y == last {
                            assert(extras[extras.len() - 1] == y);
                        }
                    }
                    assert forall|y: EntityId| l.contains(y) <==> (y == last || init.contains(y)) by {
                        if l.contains(y) {
                            let i = choose|i: int| 0 <= i < l.len() && l[i] == y;
                            if i > 0 {
                                assert(init[i - 1] == y);
                            }
                        }
                        if init.contains(y) {
                            let i = choose|i: int| 0 <= i < init.len() && init[i] == y;
                            assert(l[i + 1] == y);
                        }
                        if y == last {
                            assert(l[0] == y);
                        }
                    }
                    assert(l.no_duplicates()) by {
                        assert forall|i: int, j: int| 0 <= i < l.len() && 0 <= j < l.len() && i != j
                            implies l[i] != l[j] by {
                            if i > 0 && j > 0 {
                                assert(l[i] == extras[i - 1] && l[j] == extras[j - 1]);
                            } else if i == 0 {
                                assert(init.contains(l[j]));
                            } else {
                                assert(init.contains(l[i]));
                            }
                        }
                    }
                } else {
                    assert(ball_list(p, e) =~= Seq::<EntityId>::empty());
                    assert forall|y: EntityId| !ball_list(p, e).contains(y) by {}
                }
            } else {
                lemma_without(extras, ball);
                let w = without(extras, ball);
                let l = ball_list(p, e);
                assert(l =~= seq![q] + w);
                assert forall|y: EntityId| l.contains(y) <==> (y == q || w.contains(y)) by {
                    if l.contains(y) {
                        let i = choose|i: int| 0 <= i < l.len() && l[i] == y;
                        if i > 0 {
                            assert(w[i - 1] == y);
                        }
                    }
                    if w.contains(y) {
                        let i = choose|i: int| 0 <= i < w.len() && w[i] == y;
                        assert(l[i + 1] == y);
                    }
                    if y == q {
                        assert(l[0] == y);
                    }
                }
                assert(l.no_duplicates()) by {
                    assert forall|i: int, j: int| 0 <= i < l.len() && 0 <= j < l.len() && i != j
                        implies l[i] != l[j] by {
                        if i > 0 && j > 0 {
                            assert(l[i] == w[i - 1] && l[j] == w[j - 1]);
                        } else if i == 0 {
                            assert(w.contains(l[j]));
                        } else {
                            assert(w.contains(l[i]));
                        }
                    }
                }
            }
        },
        None => {
            assert(extras.len() == 0);
            lemma_without(extras, ball);
        },
    }
}

/// The doublings a multiplier map records for `ball`: zero when it has no entry.
pub open spec fn doublings_in(m: Map<EntityId, u32>, ball: EntityId) -> u32 {
    if m.contains_key(ball) {
        m[ball]
    } else {
        0
    }
}

/// One more doubling, held at the largest count there is: a multiplier that far up is
/// past any float already.
pub open spec fn one_more(n: u32) -> u32 {
    if n < u32::MAX {
        (n + 1) as u32
    } else {
        n
    }
}

impl Balls {
    /// No balls, and no multipliers.
    pub fn new() -> (balls: Balls)
        ensures
            balls.primary is None,
            balls.extras@.len() == 0,
            balls.speed_doublings@ == Map::<EntityId, u32>::empty(),
    {
        Balls { primary: None, extras: Vec::new(), speed_doublings: HashMap::new() }
    }

    /// Every live ball, primary first.
    pub open spec fn all_spec(&self) -> Seq<EntityId> {
        ball_list(self.primary, self.extras@)
    }

    /// The balls' bookkeeping is sound: no ball is held twice, and the primary is
    /// missing only when no ball is left.
    pub open spec fn well_formed(&self) -> bool {
        &&& self.all_spec().no_duplicates()
        &&& self.primary is None ==> self.extras@.len() == 0
    }

    /// Snapshot of every live ball, primary first.
    pub fn all(&self) -> (balls: Vec<EntityId>)
        ensures
            balls@ == self.all_spec(),
    {
        let mut balls: Vec<EntityId> = Vec::new();
        if let Some(p) = self.primary {
            balls.push(p);
        }
        let n = self.extras.len();
        let ghost start = balls@;
        let mut i: usize = 0;
        while i < n
            invariant
                n == self.extras@.len(),
                i <= n,
                balls@ == start + self.extras@.take(i as int),
            decreases n - i,
        {
            balls.push(self.extras[i]);
            assert(self.extras@.take((i + 1) as int) =~= self.extras@.take(i as int).push(
                self.extras@[i as int],
            ));
            i = i + 1;
        }
        assert(self.extras@.take(n as int) =~= self.extras@);
        assert(balls@ =~= self.all_spec());
        balls
    }

    /// Whether no ball is in play.
    pub fn is_empty(&self) -> (empty: bool)
        ensures
            empty == (self.primary is None && self.extras@.len() == 0),
    {
        self.primary.is_none() && self.extras.len() == 0
    }

    /// Forget a ball that is being destroyed, and its multiplier. If it was the
    /// primary, the last extra is promoted so the match keeps a primary while any ball
    /// lives; otherwise it is taken out of the extras.
    pub fn remove(&mut self, ball: EntityId)
        ensures
            final(self).speed_doublings@ == old(self).speed_doublings@.remove(ball),
            (final(self).primary, final(self).extras@) == after_remove(
                old(self).primary,
                old(self).extras@,
                ball,
            ),
    {
        self.speed_doublings.remove(&ball);
        if self.primary == Some(ball) {
            self.primary = self.extras.pop();
        } else {
            let n = self.extras.len();
            let mut kept: Vec<EntityId> = Vec::new();
            let mut i: usize = 0;
            while i < n
                invariant
                    n == self.extras@.len(),
                    i <= n,
                    kept@ == without(self.extras@.take(i as int), ball),
                decreases n - i,
            {
                let b = self.extras[i];
                assert(self.extras@.take((i + 1) as int).drop_last() =~= self.extras@.take(
                    i as int,
                ));
                if b != ball {
                    kept.push(b);
                }
                i = i + 1;
            }
            assert(self.extras@.take(n as int) =~= self.extras@);
            self.extras = kept;
        }
    }

    /// How many times `ball`'s speed multiplier has been doubled: zero for a ball with
    /// no entry.
    pub fn speed_doublings_of(&self, ball: EntityId) -> (n: u32)
        ensures
            n == doublings_in(self.speed_doublings@, ball),
    {
        match self.speed_doublings.get(&ball) {
            Some(n) => *n,
            None => 0,
        }
    }

    /// Double `ball`'s speed multiplier.
    pub fn double_speed(&mut self, ball: EntityId)
        ensures
            final(self).speed_doublings@ == old(self).speed_doublings@.insert(
                ball,
                one_more(doublings_in(old(self).speed_doublings@, ball)),
            ),
            final(self).primary == old(self).primary,
            final(self).extras == old(self).extras,
    {
        let n = self.speed_doublings_of(ball);
        let next = if n < u32::MAX {
            n + 1
        } else {
            n
        };
        self.speed_doublings.insert(ball, next);
    }

    /// Every multiplier back to one.
    pub fn clear_speeds(&mut self)
        ensures
            final(self).speed_doublings@ == Map::<EntityId, u32>::empty(),
            final(self).primary == old(self).primary,
            final(self).extras == old(self).extras,
    {
        self.speed_doublings.clear();
    }
}

} // verus!
