//! Goals and hits: which of a frame's collisions were a tong returning a ball and which
//! a goal sensor catching one, the point a goal awards, and when a match is won.

use vstd::prelude::*;
use crate::types::{
    Side, Scoreboard, GameState, WIN_SCORE, insane_mode, scored, opposite_side, points_of,
    TONG_SCORED_ON,
};
use crate::balls::{EntityId, doublings_in, one_more, ball_list, after_remove, without};
use crate::clips::tong_state_name;
use crate::game::Match;

verus! {

/// One contact event between two entities, as the physics step reports it: `started`
/// on the step they began to touch, `stopped` on the step they parted, and neither on
/// a step they go on touching.
#[derive(Debug, Clone, Copy, PartialEq, Eq, Structural)]
pub struct Contact {
    pub entity_a: EntityId,
    pub entity_b: EntityId,
    pub started: bool,
    pub stopped: bool,
}

/// Whether a contact is between `x` and `y`, either way round.
pub open spec fn involves(c: Contact, x: EntityId, y: EntityId) -> bool {
    (c.entity_a == x && c.entity_b == y) || (c.entity_a == y && c.entity_b == x)
}

impl Contact {
    /// Whether this contact is between `x` and `y`, either way round.
    pub fn involves(&self, x: EntityId, y: EntityId) -> (between: bool)
        ensures
            between == involves(*self, x, y),
    {
        (self.entity_a == x && self.entity_b == y) || (self.entity_a == y && self.entity_b == x)
    }
}

/// One frame's collisions, sorted into what scoring does with them.
pub struct FrameCollisions {
    /// Balls that arrived on a tong this frame, with the side that returned them.
    pub paddle_hits: Vec<(EntityId, Side)>,
    /// Balls a goal sensor caught, with the side that gets the point.
    pub balls_scored: Vec<(EntityId, Side)>,
    /// In Insane mode, the balls whose speed doubled: one entry per contact that was a
    /// hit, so the program driving the physics doubles each one's velocity as often.
    pub insane_hits: Vec<EntityId>,
}

/// The hits one contact makes for ball `b`: the left tong's, then the right tong's.
pub open spec fn ball_hits(c: Contact, b: EntityId, lp: EntityId, rp: EntityId) -> Seq<(EntityId, Side)> {
    (if involves(c, b, lp) {
        seq![(b, Side::Left)]
    } else {
        Seq::empty()
    }) + (if involves(c, b, rp) {
        seq![(b, Side::Right)]
    } else {
        Seq::empty()
    })
}

/// The hits one contact makes, ball by ball.
pub open spec fn contact_hits(c: Contact, balls: Seq<EntityId>, lp: EntityId, rp: EntityId) -> Seq<
    (EntityId, Side),
>
    decreases balls.len(),
{
    if balls.len() == 0 {
        Seq::empty()
    } else {
        contact_hits(c, balls.drop_last(), lp, rp) + ball_hits(c, balls.last(), lp, rp)
    }
}

/// A frame's hits, contact by contact: only a contact that started is a hit.
pub open spec fn frame_hits(cs: Seq<Contact>, balls: Seq<EntityId>, lp: EntityId, rp: EntityId) -> Seq<
    (EntityId, Side),
>
    decreases cs.len(),
{
    if cs.len() == 0 {
        Seq::empty()
    } else {
        frame_hits(cs.drop_last(), balls, lp, rp) + (if cs.last().started {
            contact_hits(cs.last(), balls, lp, rp)
        } else {
            Seq::empty()
        })
    }
}

/// The balls one contact hit against a tong, each once.
pub open spec fn contact_boosted(c: Contact, balls: Seq<EntityId>, lp: EntityId, rp: EntityId) -> Seq<
    EntityId,
>
    decreases balls.len(),
{
    if balls.len() == 0 {
        Seq::empty()
    } else {
        contact_boosted(c, balls.drop_last(), lp, rp) + (if ball_hits(c, balls.last(), lp, rp).len()
            > 0 {
            seq![balls.last()]
        } else {
            Seq::empty()
        })
    }
}

/// The balls a frame's started contacts hit against a tong, contact by contact.
pub open spec fn frame_boosted(cs: Seq<Contact>, balls: Seq<EntityId>, lp: EntityId, rp: EntityId) -> Seq<
    EntityId,
>
    decreases cs.len(),
{
    if cs.len() == 0 {
        Seq::empty()
    } else {
        frame_boosted(cs.drop_last(), balls, lp, rp) + (if cs.last().started {
            contact_boosted(cs.last(), balls, lp, rp)
        } else {
            Seq::empty()
        })
    }
}

/// Whether `b` is already among the goals found.
pub open spec fn already_scored(acc: Seq<(EntityId, Side)>, b: EntityId) -> bool {
    exists|i: int| 0 <= i < acc.len() && acc[i].0 == b
}

/// The goals found after looking at ball `b` in contact `c`: a ball is scored once a
/// frame, by the left goal for the right side or by the right goal for the left.
pub open spec fn score_step(
    acc: Seq<(EntityId, Side)>,
    c: Contact,
    b: EntityId,
    lg: EntityId,
    rg: EntityId,
) -> Seq<(EntityId, Side)> {
    if already_scored(acc, b) {
        acc
    } else if involves(c, b, lg) {
        acc.push((b, Side::Right))
    } else if involves(c, b, rg) {
        acc.push((b, Side::Left))
    } else {
        acc
    }
}

/// The goals found after one contact, ball by ball.
pub open spec fn contact_scored(
    acc: Seq<(EntityId, Side)>,
    c: Contact,
    balls: Seq<EntityId>,
    lg: EntityId,
    rg: EntityId,
) -> Seq<(EntityId, Side)>
    decreases balls.len(),
{
    if balls.len() == 0 {
        acc
    } else {
        score_step(contact_scored(acc, c, balls.drop_last(), lg, rg), c, balls.last(), lg, rg)
    }
}

/// A frame's goals, contact by contact: only a contact that started counts.
pub open spec fn frame_scored(cs: Seq<Contact>, balls: Seq<EntityId>, lg: EntityId, rg: EntityId) -> Seq<
    (EntityId, Side),
>
    decreases cs.len(),
{
    if cs.len() == 0 {
        Seq::empty()
    } else {
        let prev = frame_scored(cs.drop_last(), balls, lg, rg);
        if cs.last().started {
            contact_scored(prev, cs.last(), balls, lg, rg)
        } else {
            prev
        }
    }
}

/// A multiplier map after doubling each ball of `hits`, in order.
pub open spec fn doubled(m: Map<EntityId, u32>, hits: Seq<EntityId>) -> Map<EntityId, u32>
    decreases hits.len(),
{
    if hits.len() == 0 {
        m
    } else {
        let before = doubled(m, hits.drop_last());
        before.insert(hits.last(), one_more(doublings_in(before, hits.last())))
    }
}

/// A frame in which no contact started makes no hit and no goal: a pair going on
/// touching, or parting, is neither.
pub proof fn lemma_only_started_contacts_count(
    cs: Seq<Contact>,
    balls: Seq<EntityId>,
    lp: EntityId,
    rp: EntityId,
    lg: EntityId,
    rg: EntityId,
)
    requires
        forall|i: int| 0 <= i < cs.len() ==> !(#[trigger] cs[i]).started,
    ensures
        frame_hits(cs, balls, lp, rp) == Seq::<(EntityId, Side)>::empty(),
        frame_boosted(cs, balls, lp, rp) == Seq::<EntityId>::empty(),
        frame_scored(cs, balls, lg, rg) == Seq::<(EntityId, Side)>::empty(),
    decreases cs.len(),
{
    if cs.len() > 0 {
        let init = cs.drop_last();
        assert forall|i: int| 0 <= i < init.len() implies !(#[trigger] init[i]).started by {
            assert(init[i] == cs[i]);
        }
        assert(!cs[cs.len() - 1].started);
        lemma_only_started_contacts_count(init, balls, lp, rp, lg, rg);
        assert(frame_hits(cs, balls, lp, rp) =~= Seq::<(EntityId, Side)>::empty());
        assert(frame_boosted(cs, balls, lp, rp) =~= Seq::<EntityId>::empty());
    }
}

/// No two goals found share a ball.
pub open spec fn scored_once(acc: Seq<(EntityId, Side)>) -> bool {
    forall|i: int, j: int| 0 <= i < acc.len() && 0 <= j < acc.len() && i != j ==> acc[i].0 != acc[j].0
}

/// Looking at one more ball keeps every scored ball scored once.
proof fn lemma_score_step_once(acc: Seq<(EntityId, Side)>, c: Contact, b: EntityId, lg: EntityId, rg: EntityId)
    requires
        scored_once(acc),
    ensures
        scored_once(score_step(acc, c, b, lg, rg)),
{
    let next = score_step(acc, c, b, lg, rg);
    if !already_scored(acc, b) && next != acc {
        assert forall|i: int, j: int| 0 <= i < next.len() && 0 <= j < next.len() && i != j
            implies next[i].0 != next[j].0 by {
            if i < acc.len() && j < acc.len() {
                assert(next[i] == acc[i] && next[j] == acc[j]);
            } else if i < acc.len() {
                assert(next[i] == acc[i]);
                assert(next[j].0 == b);
            } else {
                assert(next[j] == acc[j]);
                assert(next[i].0 == b);
            }
        }
    }
}

proof fn lemma_contact_scored_once(
    acc: Seq<(EntityId, Side)>,
    c: Contact,
    balls: Seq<EntityId>,
    lg: EntityId,
    rg: EntityId,
)
    requires
        scored_once(acc),
    ensures
        scored_once(contact_scored(acc, c, balls, lg, rg)),
    decreases balls.len(),
{
    if balls.len() > 0 {
        lemma_contact_scored_once(acc, c, balls.drop_last(), lg, rg);
        lemma_score_step_once(contact_scored(acc, c, balls.drop_last(), lg, rg), c, balls.last(), lg, rg);
    }
}

/// A ball is scored at most once a frame, however many contacts with a goal sensor
/// the frame reports for it.
pub proof fn lemma_a_ball_scores_once_a_frame(
    cs: Seq<Contact>,
    balls: Seq<EntityId>,
    lg: EntityId,
    rg: EntityId,
)
    ensures
        scored_once(frame_scored(cs, balls, lg, rg)),
    decreases cs.len(),
{
    if cs.len() > 0 {
        lemma_a_ball_scores_once_a_frame(cs.drop_last(), balls, lg, rg);
        if cs.last().started {
            lemma_contact_scored_once(frame_scored(cs.drop_last(), balls, lg, rg), cs.last(), balls, lg, rg);
        }
    }
}

/// `board` after each side of `sides`, in order, gets a point.
pub open spec fn awarded(board: Scoreboard, sides: Seq<Side>) -> Scoreboard
    decreases sides.len(),
{
    if sides.len() == 0 {
        board
    } else {
        scored(awarded(board, sides.drop_last()), sides.last())
    }
}

/// How many entries of `sides` are `side`.
pub open spec fn goals_for(sides: Seq<Side>, side: Side) -> nat
    decreases sides.len(),
{
    if sides.len() == 0 {
        0
    } else {
        goals_for(sides.drop_last(), side) + if sides.last() == side {
            1nat
        } else {
            0nat
        }
    }
}

/// Points are counted goals: after a run of goals each side has one more point per
/// goal it scored and none other, the last goal's side is the last scorer, and the
/// last touch is untouched. Every goal goes to one side or the other.
pub proof fn lemma_each_goal_is_one_point(board: Scoreboard, sides: Seq<Side>)
    requires
        board.left + sides.len() <= u32::MAX,
        board.right + sides.len() <= u32::MAX,
    ensures
        awarded(board, sides).left == board.left + goals_for(sides, Side::Left),
        awarded(board, sides).right == board.right + goals_for(sides, Side::Right),
        goals_for(sides, Side::Left) + goals_for(sides, Side::Right) == sides.len(),
        awarded(board, sides).last_scorer == (if sides.len() == 0 {
            board.last_scorer
        } else {
            sides.last()
        }),
        awarded(board, sides).last_touch == board.last_touch,
    decreases sides.len(),
{
    if sides.len() > 0 {
        lemma_each_goal_is_one_point(board, sides.drop_last());
    }
}

/// The primary and extras after forgetting each ball of `gone`, in order.
pub open spec fn removed_balls(primary: Option<EntityId>, extras: Seq<EntityId>, gone: Seq<EntityId>) -> (
    Option<EntityId>,
    Seq<EntityId>,
)
    decreases gone.len(),
{
    if gone.len() == 0 {
        (primary, extras)
    } else {
        let (p, e) = removed_balls(primary, extras, gone.drop_last());
        after_remove(p, e, gone.last())
    }
}

/// A multiplier map after forgetting each ball of `gone`.
pub open spec fn removed_keys(m: Map<EntityId, u32>, gone: Seq<EntityId>) -> Map<EntityId, u32>
    decreases gone.len(),
{
    if gone.len() == 0 {
        m
    } else {
        removed_keys(m, gone.drop_last()).remove(gone.last())
    }
}

/// One goal, for the world to show: the ball that went, the side that conceded, and
/// the state the conceding tong's machine plays.
pub struct Goal {
    pub ball: EntityId,
    pub conceded: Side,
    pub tong_reaction: String,
}

/// A frame's goals and hits.
pub struct GoalReport {
    /// Balls that left the court, each conceded on the side it went out.
    pub escapes: Vec<Goal>,
    /// Balls a tong returned, with the side that returned them.
    pub hits: Vec<(EntityId, Side)>,
    /// In Insane mode, the balls whose speed doubled, once per hit.
    pub insane_hits: Vec<EntityId>,
    /// Balls a goal sensor caught, each conceded by the side whose goal it was.
    pub goals: Vec<Goal>,
    /// Whether the goals took the last ball, so the next serve needs a fresh one.
    pub respawn: bool,
}

/// The length of the ball list does not grow when a ball is forgotten.
proof fn lemma_remove_does_not_grow(primary: Option<EntityId>, extras: Seq<EntityId>, ball: EntityId)
    ensures
        ({
            let (p, e) = after_remove(primary, extras, ball);
            ball_list(p, e).len() <= ball_list(primary, extras).len()
        }),
{
    lemma_without_shorter(extras, ball);
}

proof fn lemma_without_shorter(s: Seq<EntityId>, x: EntityId)
    ensures
        without(s, x).len() <= s.len(),
    decreases s.len(),
{
    if s.len() > 0 {
        lemma_without_shorter(s.drop_last(), x);
    }
}

proof fn lemma_scored_in_prefix(
    acc: Seq<(EntityId, Side)>,
    c: Contact,
    balls: Seq<EntityId>,
    lg: EntityId,
    rg: EntityId,
)
    requires
        forall|i: int| 0 <= i < acc.len() ==> balls.contains(#[trigger] acc[i].0),
    ensures
        forall|i: int| 0 <= i < contact_scored(acc, c, balls, lg, rg).len() ==> balls.contains(
            #[trigger] contact_scored(acc, c, balls, lg, rg)[i].0,
        ),
    decreases balls.len(),
{
    if balls.len() > 0 {
        let init = balls.drop_last();
        let last = balls.last();
        assert forall|x: EntityId| init.contains(x) implies balls.contains(x) by {
            let k = choose|k: int| 0 <= k < init.len() && init[k] == x;
            assert(balls[k] == x);
        }
        assert(balls.contains(last)) by {
            assert(balls[balls.len() - 1] == last);
        }
        lemma_scored_in_superset(acc, c, init, balls, lg, rg);
        let prev = contact_scored(acc, c, init, lg, rg);
        let next = score_step(prev, c, last, lg, rg);
        assert forall|i: int| 0 <= i < next.len() implies balls.contains(#[trigger] next[i].0) by {
            if i < prev.len() {
                assert(next[i] == prev[i]);
            }
        }
    }
}

/// Scoring over a prefix of the balls keeps every scored ball inside any sequence that
/// holds the prefix and the goals already found.
proof fn lemma_scored_in_superset(
    acc: Seq<(EntityId, Side)>,
    c: Contact,
    part: Seq<EntityId>,
    whole: Seq<EntityId>,
    lg: EntityId,
    rg: EntityId,
)
    requires
        forall|i: int| 0 <= i < acc.len() ==> whole.contains(#[trigger] acc[i].0),
        forall|x: EntityId| part.contains(x) ==> whole.contains(x),
    ensures
        forall|i: int| 0 <= i < contact_scored(acc, c, part, lg, rg).len() ==> whole.contains(
            #[trigger] contact_scored(acc, c, part, lg, rg)[i].0,
        ),
    decreases part.len(),
{
    if part.len() > 0 {
        let init = part.drop_last();
        let last = part.last();
        assert forall|x: EntityId| init.contains(x) implies whole.contains(x) by {
            let k = choose|k: int| 0 <= k < init.len() && init[k] == x;
            assert(part[k] == x);
        }
        assert(part.contains(last)) by {
            assert(part[part.len() - 1] == last);
        }
        lemma_scored_in_superset(acc, c, init, whole, lg, rg);
        let prev = contact_scored(acc, c, init, lg, rg);
        let next = score_step(prev, c, last, lg, rg);
        assert forall|i: int| 0 <= i < next.len() implies whole.contains(#[trigger] next[i].0) by {
            if i < prev.len() {
                assert(next[i] == prev[i]);
            }
        }
    }
}

/// Every ball a frame's goals name is one of the frame's balls.
proof fn lemma_frame_scored_balls(cs: Seq<Contact>, balls: Seq<EntityId>, lg: EntityId, rg: EntityId)
    ensures
        forall|i: int| 0 <= i < frame_scored(cs, balls, lg, rg).len() ==> balls.contains(
            #[trigger] frame_scored(cs, balls, lg, rg)[i].0,
        ),
    decreases cs.len(),
{
    if cs.len() > 0 {
        lemma_frame_scored_balls(cs.drop_last(), balls, lg, rg);
        if cs.last().started {
            lemma_scored_in_prefix(frame_scored(cs.drop_last(), balls, lg, rg), cs.last(), balls, lg, rg);
        }
    }
}

/// A frame scores no more goals than it has balls.
proof fn lemma_goals_fit_the_balls(cs: Seq<Contact>, balls: Seq<EntityId>, lg: EntityId, rg: EntityId)
    ensures
        frame_scored(cs, balls, lg, rg).len() <= balls.len(),
{
    let goals = frame_scored(cs, balls, lg, rg);
    lemma_a_ball_scores_once_a_frame(cs, balls, lg, rg);
    lemma_frame_scored_balls(cs, balls, lg, rg);
    let ids = goals.map_values(|g: (EntityId, Side)| g.0);
    assert(ids.no_duplicates()) by {
        assert forall|i: int, j: int| 0 <= i < ids.len() && 0 <= j < ids.len() && i != j
            implies ids[i] != ids[j] by {
            assert(ids[i] == goals[i].0 && ids[j] == goals[j].0);
        }
    }
    ids.unique_seq_to_set();
    balls.lemma_cardinality_of_set();
    assert(ids.to_set().subset_of(balls.to_set())) by {
        assert forall|x: EntityId| ids.to_set().contains(x) implies balls.to_set().contains(x) by {
            let k = choose|k: int| 0 <= k < ids.len() && ids[k] == x;
            assert(balls.contains(goals[k].0));
        }
    }
    vstd::set_lib::lemma_len_subset(ids.to_set(), balls.to_set());
}

/// Which side, if either, has won on `board`: the left first, once it has the match's
/// points.
pub open spec fn winner_spec(board: Scoreboard) -> Option<bool> {
    if board.left >= WIN_SCORE {
        Some(true)
    } else if board.right >= WIN_SCORE {
        Some(false)
    } else {
        None
    }
}

/// A match is won by the first side to the match's points: a left side with seven
/// wins whatever the right has, a right side with seven wins when the left has fewer,
/// and with both short of seven nobody has won. The winner has at least as many
/// points as the loser had to reach.
pub proof fn lemma_seven_points_win(board: Scoreboard)
    ensures
        WIN_SCORE == 7,
        board.left >= 7 ==> winner_spec(board) == Some(true),
        board.left < 7 && board.right >= 7 ==> winner_spec(board) == Some(false),
        board.left < 7 && board.right < 7 ==> winner_spec(board) is None,
        winner_spec(board) == Some(true) ==> board.left >= 7,
        winner_spec(board) == Some(false) ==> board.right >= 7 && board.left < 7,
{
}

impl Match {
    /// React to this frame's collisions: a tong that really returned a ball reports
    /// the hit and becomes the last to touch it (and in Insane mode doubles that ball's
    /// speed multiplier), and any ball that crossed a goal sensor is reported once, with
    /// who gets the point.
    ///
    /// Only a `started` contact is a hit: the engine reports a pair by diffing the
    /// step's contacts against the last step's, so a jaw rebuilt under a ball it
    /// already touches makes no new start, and a pair going on touching or parting is
    /// no hit.
    pub fn handle_paddle_hits_and_collect_goals(
        &mut self,
        collisions: &[Contact],
        all_balls: &[EntityId],
    ) -> (found: FrameCollisions)
        requires
            old(self).playfield.left_paddle is Some,
            old(self).playfield.right_paddle is Some,
            old(self).playfield.left_goal is Some,
            old(self).playfield.right_goal is Some,
        ensures
            ({
                let lp = old(self).playfield.left_paddle->0;
                let rp = old(self).playfield.right_paddle->0;
                let lg = old(self).playfield.left_goal->0;
                let rg = old(self).playfield.right_goal->0;
                let hits = frame_hits(collisions@, all_balls@, lp, rp);
                &&& found.paddle_hits@ == hits
                &&& found.balls_scored@ == frame_scored(collisions@, all_balls@, lg, rg)
                &&& found.insane_hits@ == (if insane_mode(old(self).settings.chaos) {
                    frame_boosted(collisions@, all_balls@, lp, rp)
                } else {
                    Seq::empty()
                })
                &&& final(self).score == (Scoreboard {
                    last_touch: if hits.len() > 0 {
                        Some(hits.last().1)
                    } else {
                        old(self).score.last_touch
                    },
                    ..old(self).score
                })
                &&& final(self).balls.speed_doublings@ == doubled(
                    old(self).balls.speed_doublings@,
                    found.insane_hits@,
                )
            }),
            final(self).balls.primary == old(self).balls.primary,
            final(self).balls.extras == old(self).balls.extras,
            final(self).state == old(self).state,
            final(self).settings == old(self).settings,
            final(self).playfield == old(self).playfield,
            final(self).tongs == old(self).tongs,
            final(self).frame_count == old(self).frame_count,
            final(self).transient_visuals == old(self).transient_visuals,
    {
        let lp = self.playfield.left_paddle.unwrap();
        let rp = self.playfield.right_paddle.unwrap();
        let lg = self.playfield.left_goal.unwrap();
        let rg = self.playfield.right_goal.unwrap();
        let insane = self.settings.chaos.is_insane();

        let ghost cs = collisions@;
        let ghost bs = all_balls@;
        let ghost old_touch = self.score.last_touch;
        let mut last_touch = self.score.last_touch;
        let mut hits: Vec<(EntityId, Side)> = Vec::new();
        let mut scored: Vec<(EntityId, Side)> = Vec::new();
        let mut boosted: Vec<EntityId> = Vec::new();

        let n = collisions.len();
        let m = all_balls.len();
        let mut i: usize = 0;
        while i < n
            invariant
                n == cs.len(),
                m == bs.len(),
                cs == collisions@,
                bs == all_balls@,
                i <= n,
                hits@ == frame_hits(cs.take(i as int), bs, lp, rp),
                scored@ == frame_scored(cs.take(i as int), bs, lg, rg),
                boosted@ == (if insane {
                    frame_boosted(cs.take(i as int), bs, lp, rp)
                } else {
                    Seq::empty()
                }),
                last_touch == (if hits@.len() > 0 {
                    Some(hits@.last().1)
                } else {
                    old_touch
                }),
            decreases n - i,
        {
            let c = collisions[i];
            let ghost before = cs.take(i as int);
            assert(cs.take((i + 1) as int).drop_last() =~= before);
            assert(cs.take((i + 1) as int).last() == c);
            if c.started {
                let ghost hits0 = hits@;
                let ghost scored0 = scored@;
                let ghost boosted0 = boosted@;
                let mut j: usize = 0;
                while j < m
                    invariant
                        m == bs.len(),
                        bs == all_balls@,
                        j <= m,
                        hits@ == hits0 + contact_hits(c, bs.take(j as int), lp, rp),
                        scored@ == contact_scored(scored0, c, bs.take(j as int), lg, rg),
                        boosted@ == (if insane {
                            boosted0 + contact_boosted(c, bs.take(j as int), lp, rp)
                        } else {
                            boosted0
                        }),
                        last_touch == (if hits@.len() > 0 {
                            Some(hits@.last().1)
                        } else {
                            old_touch
                        }),
                        boosted0 == (if insane {
                            frame_boosted(cs.take(i as int), bs, lp, rp)
                        } else {
                            Seq::<EntityId>::empty()
                        }),
                    decreases m - j,
                {
                    let b = all_balls[j];
                    let ghost hits1 = hits@;
                    assert(bs.take((j + 1) as int).drop_last() =~= bs.take(j as int));
                    assert(bs.take((j + 1) as int).last() == b);
                    let mut hit_paddle = false;
                    if c.involves(b, lp) {
                        last_touch = Some(Side::Left);
                        hits.push((b, Side::Left));
                        hit_paddle = true;
                    }
                    if c.involves(b, rp) {
                        last_touch = Some(Side::Right);
                        hits.push((b, Side::Right));
                        hit_paddle = true;
                    }
                    assert(hits@ =~= hits1 + ball_hits(c, b, lp, rp));
                    assert(hit_paddle == (ball_hits(c, b, lp, rp).len() > 0));
                    if hit_paddle && insane {
                        boosted.push(b);
                    }
                    let mut already = false;
                    let mut k: usize = 0;
                    while k < scored.len()
                        invariant
                            k <= scored@.len(),
                            already == (exists|x: int| 0 <= x < k && scored@[x].0 == b),
                        decreases scored@.len() - k,
                    {
                        if scored[k].0 == b {
                            already = true;
                        }
                        k = k + 1;
                    }
                    assert(already == already_scored(scored@, b));
                    if !already {
                        if c.involves(b, lg) {
                            scored.push((b, Side::Right));
                        } else if c.involves(b, rg) {
                            scored.push((b, Side::Left));
                        }
                    }
                    j = j + 1;
                }
                assert(bs.take(m as int) =~= bs);
            }
            i = i + 1;
        }
        assert(cs.take(n as int) =~= cs);

        let ghost start = self.balls.speed_doublings@;
        let mut k: usize = 0;
        while k < boosted.len()
            invariant
                k <= boosted@.len(),
                self.balls.speed_doublings@ == doubled(start, boosted@.take(k as int)),
                self.balls.primary == old(self).balls.primary,
                self.balls.extras == old(self).balls.extras,
                self.state == old(self).state,
                self.settings == old(self).settings,
                self.playfield == old(self).playfield,
                self.tongs == old(self).tongs,
                self.frame_count == old(self).frame_count,
                self.transient_visuals == old(self).transient_visuals,
                self.score == old(self).score,
            decreases boosted@.len() - k,
        {
            assert(boosted@.take((k + 1) as int).drop_last() =~= boosted@.take(k as int));
            self.balls.double_speed(boosted[k]);
            k = k + 1;
        }
        assert(boosted@.take(boosted@.len() as int) =~= boosted@);
        self.score.last_touch = last_touch;
        FrameCollisions { paddle_hits: hits, balls_scored: scored, insane_hits: boosted }
    }
}

/// The reaction state of `side`'s tong, in the facing the tongs give it.
pub open spec fn reaction_of(tongs: crate::types::Tongs, side: Side) -> Seq<char> {
    tong_state_name(TONG_SCORED_ON@, crate::types::tong_of(tongs, side).facing)
}

/// The sides that get a point when the balls of `escaped` concede on their sides.
pub open spec fn escape_points(escaped: Seq<(EntityId, Side)>) -> Seq<Side> {
    escaped.map_values(|g: (EntityId, Side)| opposite_side(g.1))
}

/// The balls of a list of (ball, side) pairs.
pub open spec fn balls_of(list: Seq<(EntityId, Side)>) -> Seq<EntityId> {
    list.map_values(|g: (EntityId, Side)| g.0)
}

/// The sides of a list of (ball, side) pairs.
pub open spec fn sides_of(list: Seq<(EntityId, Side)>) -> Seq<Side> {
    list.map_values(|g: (EntityId, Side)| g.1)
}

impl Match {
    /// This frame's goals. First every ball that left the court (or whose position
    /// stopped being a number) counts as a goal against the side it went out on, and is
    /// forgotten at once, so nothing after sees a torn-down ball. Then the frame's
    /// contacts are sorted among the balls left: tong hits, and balls a goal sensor
    /// caught, each a goal against the side whose goal it was. A goal awards the other
    /// side the point and forgets the ball. When the goals took the last ball, the
    /// report says a fresh one is needed for the serve.
    ///
    /// `escaped` is each escaped ball with the side it went out on, read from its own
    /// position. Without all four tongs and goals in place nothing happens (`None`).
    pub fn check_goals(&mut self, escaped: &[(EntityId, Side)], collisions: &[Contact]) -> (report:
        Option<GoalReport>)
        requires
            old(self).score.left + escaped@.len() + old(self).balls.all_spec().len() <= u32::MAX,
            old(self).score.right + escaped@.len() + old(self).balls.all_spec().len() <= u32::MAX,
        ensures
            (old(self).playfield.left_goal is None || old(self).playfield.right_goal is None
                || old(self).playfield.left_paddle is None || old(self).playfield.right_paddle is None)
                ==> report is None && final(self).score == old(self).score
                && final(self).balls.primary == old(self).balls.primary
                && final(self).balls.extras@ == old(self).balls.extras@
                && final(self).balls.speed_doublings@ == old(self).balls.speed_doublings@,
            (report is Some) == (old(self).playfield.left_goal is Some && old(self).playfield.right_goal is Some
                && old(self).playfield.left_paddle is Some && old(self).playfield.right_paddle is Some),
            report matches Some(r) ==> {
                let lp = old(self).playfield.left_paddle->0;
                let rp = old(self).playfield.right_paddle->0;
                let lg = old(self).playfield.left_goal->0;
                let rg = old(self).playfield.right_goal->0;
                let (p1, e1) = removed_balls(old(self).balls.primary, old(self).balls.extras@, balls_of(escaped@));
                let all = ball_list(p1, e1);
                let hits = frame_hits(collisions@, all, lp, rp);
                let found = frame_scored(collisions@, all, lg, rg);
                let after_escapes = awarded(old(self).score, escape_points(escaped@));
                &&& r.escapes@.len() == escaped@.len()
                &&& forall|i: int| 0 <= i < escaped@.len() ==> {
                    &&& (#[trigger] r.escapes@[i]).ball == escaped@[i].0
                    &&& r.escapes@[i].conceded == escaped@[i].1
                    &&& r.escapes@[i].tong_reaction@ == reaction_of(old(self).tongs, escaped@[i].1)
                }
                &&& r.hits@ == hits
                &&& r.insane_hits@ == (if insane_mode(old(self).settings.chaos) {
                    frame_boosted(collisions@, all, lp, rp)
                } else {
                    Seq::empty()
                })
                &&& r.goals@.len() == found.len()
                &&& forall|i: int| 0 <= i < found.len() ==> {
                    &&& (#[trigger] r.goals@[i]).ball == found[i].0
                    &&& r.goals@[i].conceded == opposite_side(found[i].1)
                    &&& r.goals@[i].tong_reaction@ == reaction_of(old(self).tongs, opposite_side(found[i].1))
                }
                &&& final(self).score == (Scoreboard {
                    last_touch: if hits.len() > 0 {
                        Some(hits.last().1)
                    } else {
                        old(self).score.last_touch
                    },
                    ..awarded(after_escapes, sides_of(found))
                })
                &&& (final(self).balls.primary, final(self).balls.extras@) == removed_balls(p1, e1, balls_of(found))
                &&& final(self).balls.speed_doublings@ == removed_keys(
                    doubled(removed_keys(old(self).balls.speed_doublings@, balls_of(escaped@)), r.insane_hits@),
                    balls_of(found),
                )
                &&& r.respawn == (final(self).balls.primary is None && final(self).balls.extras@.len() == 0
                    && (escaped@.len() > 0 || found.len() > 0))
            },
            final(self).state == old(self).state,
            final(self).settings == old(self).settings,
            final(self).tongs == old(self).tongs,
            final(self).playfield == old(self).playfield,
            final(self).transient_visuals == old(self).transient_visuals,
            final(self).frame_count == old(self).frame_count,
    {
        if self.playfield.left_goal.is_none() || self.playfield.right_goal.is_none()
            || self.playfield.left_paddle.is_none() || self.playfield.right_paddle.is_none() {
            return None;
        }
        let ghost old_score = self.score;
        let ghost old_map = self.balls.speed_doublings@;
        let ghost start_count = self.balls.all_spec().len();
        let mut escapes: Vec<Goal> = Vec::new();
        let n = escaped.len();
        let mut i: usize = 0;
        while i < n
            invariant
                n == escaped@.len(),
                i <= n,
                self.playfield == old(self).playfield,
                self.state == old(self).state,
                self.settings == old(self).settings,
                self.tongs == old(self).tongs,
                self.transient_visuals == old(self).transient_visuals,
                self.frame_count == old(self).frame_count,
                self.score == awarded(old_score, escape_points(escaped@).take(i as int)),
                self.score.left <= old_score.left + i,
                self.score.right <= old_score.right + i,
                self.score.last_touch == old_score.last_touch,
                (self.balls.primary, self.balls.extras@) == removed_balls(
                    old(self).balls.primary,
                    old(self).balls.extras@,
                    balls_of(escaped@).take(i as int),
                ),
                self.balls.all_spec().len() <= start_count,
                self.balls.speed_doublings@ == removed_keys(old_map, balls_of(escaped@).take(i as int)),
                old_score.left + escaped@.len() + start_count <= u32::MAX,
                old_score.right + escaped@.len() + start_count <= u32::MAX,
                escapes@.len() == i,
                forall|k: int| 0 <= k < i ==> {
                    &&& (#[trigger] escapes@[k]).ball == escaped@[k].0
                    &&& escapes@[k].conceded == escaped@[k].1
                    &&& escapes@[k].tong_reaction@ == reaction_of(old(self).tongs, escaped@[k].1)
                },
            decreases n - i,
        {
            let (ball, conceded) = escaped[i];
            proof {
                lemma_remove_does_not_grow(self.balls.primary, self.balls.extras@, ball);
                assert(escape_points(escaped@).take((i + 1) as int).drop_last() =~= escape_points(escaped@).take(i as int));
                assert(balls_of(escaped@).take((i + 1) as int).drop_last() =~= balls_of(escaped@).take(i as int));
            }
            let tong_reaction = self.concede_goal(ball, conceded);
            escapes.push(Goal { ball, conceded, tong_reaction });
            i = i + 1;
        }
        assert(escape_points(escaped@).take(n as int) =~= escape_points(escaped@));
        assert(balls_of(escaped@).take(n as int) =~= balls_of(escaped@));

        let all_balls = self.balls.all();
        let found = self.handle_paddle_hits_and_collect_goals(collisions, all_balls.as_slice());
        let ghost lg = self.playfield.left_goal->0;
        let ghost rg = self.playfield.right_goal->0;
        proof {
            lemma_goals_fit_the_balls(collisions@, all_balls@, lg, rg);
        }
        let ghost after_escape_score = self.score;
        let ghost mid_balls = (self.balls.primary, self.balls.extras@);
        let ghost mid_map = self.balls.speed_doublings@;
        let scored_list = &found.balls_scored;
        let m = scored_list.len();
        let mut goals: Vec<Goal> = Vec::new();
        let mut j: usize = 0;
        while j < m
            invariant
                m == scored_list@.len(),
                m <= start_count,
                j <= m,
                self.playfield == old(self).playfield,
                self.state == old(self).state,
                self.settings == old(self).settings,
                self.tongs == old(self).tongs,
                self.transient_visuals == old(self).transient_visuals,
                self.frame_count == old(self).frame_count,
                self.score == (Scoreboard {
                    last_touch: after_escape_score.last_touch,
                    ..awarded(awarded(old_score, escape_points(escaped@)), sides_of(scored_list@).take(j as int))
                }),
                after_escape_score.left <= old_score.left + n,
                after_escape_score.right <= old_score.right + n,
                self.score.left <= after_escape_score.left + j,
                self.score.right <= after_escape_score.right + j,
                old_score.left + n + start_count <= u32::MAX,
                old_score.right + n + start_count <= u32::MAX,
                (self.balls.primary, self.balls.extras@) == removed_balls(
                    mid_balls.0,
                    mid_balls.1,
                    balls_of(scored_list@).take(j as int),
                ),
                self.balls.speed_doublings@ == removed_keys(mid_map, balls_of(scored_list@).take(j as int)),
                goals@.len() == j,
                forall|k: int| 0 <= k < j ==> {
                    &&& (#[trigger] goals@[k]).ball == scored_list@[k].0
                    &&& goals@[k].conceded == opposite_side(scored_list@[k].1)
                    &&& goals@[k].tong_reaction@ == reaction_of(old(self).tongs, opposite_side(scored_list@[k].1))
                },
            decreases m - j,
        {
            let (ball, scorer) = scored_list[j];
            proof {
                assert(sides_of(scored_list@).take((j + 1) as int).drop_last() =~= sides_of(scored_list@).take(j as int));
                assert(balls_of(scored_list@).take((j + 1) as int).drop_last() =~= balls_of(scored_list@).take(j as int));
            }
            let conceded = scorer.opposite();
            let tong_reaction = self.concede_goal(ball, conceded);
            goals.push(Goal { ball, conceded, tong_reaction });
            j = j + 1;
        }
        assert(sides_of(scored_list@).take(m as int) =~= sides_of(scored_list@));
        assert(balls_of(scored_list@).take(m as int) =~= balls_of(scored_list@));
        let respawn = self.balls.is_empty() && (n > 0 || m > 0);
        Some(GoalReport {
            escapes,
            hits: found.paddle_hits,
            insane_hits: found.insane_hits,
            goals,
            respawn,
        })
    }
}

} // verus!
