//! The per-tick game state, the per-tick actions, and the mirroring
//! subsystem: the total, involutive transform between the engine's absolute
//! frame and the canonical frame in which the bot's team always holds the
//! low player identifiers and a fixed side of the field.
//!
//! Mirroring applies recursively through composite values:
//! - a free vector (direction, velocity) negates its horizontal component;
//! - a position reflects across the field's vertical midline,
//!   `x' == width - x`;
//! - a team tag flips;
//! - a player identifier moves into the other half of `[0, 2 * NUM_PLAYERS)`;
//! - a team-indexed pair swaps its slots and mirrors each slot's contents;
//! - the full player array rotates by `NUM_PLAYERS` and mirrors every entry.

use vstd::prelude::*;

use crate::config::GameConfig;
use crate::config::NUM_PLAYERS;
use crate::util::COORD_LIMIT;
use crate::util::Vec2;

verus! {

/// An optional value with a layout the engine shares; it carries the pass
/// target of a player action.
#[derive(Clone, Copy, PartialEq, Eq, Structural, Debug)]
pub enum StateOption<T> {
    Absent,
    Present(T),
}

impl<T> StateOption<T> {
    /// The same value as a plain `Option`.
    pub fn option(self) -> (r: Option<T>)
        ensures
            r == (match self {
                StateOption::Present(t) => Some(t),
                StateOption::Absent => None::<T>,
            }),
    {
        match self {
            StateOption::Absent => None,
            StateOption::Present(t) => Some(t),
        }
    }
}

impl<T> Default for StateOption<T> {
    fn default() -> (r: Self)
        ensures
            r is Absent,
    {
        StateOption::Absent
    }
}

/// The team tag, always relative to the canonical frame: `Me` is the team
/// the bot controls, never a physical side.
#[derive(Clone, Copy, PartialEq, Eq, Structural, Debug)]
pub enum Team {
    Me,
    Other,
}

impl Team {
    /// The opposing tag.
    pub open spec fn spec_other(self) -> Team {
        match self {
            Team::Me => Team::Other,
            Team::Other => Team::Me,
        }
    }

    pub fn other(&self) -> (t: Team)
        ensures
            t == self.spec_other(),
    {
        match self {
            Team::Me => Team::Other,
            Team::Other => Team::Me,
        }
    }

    /// Mirroring flips the tag: what was the other side's data is mine in
    /// the canonical frame.
    pub fn mirror(&mut self, conf: &GameConfig)
        ensures
            *final(self) == old(self).spec_other(),
    {
        *self = self.other();
    }
}

/// Mirroring a team tag twice returns the original tag.
pub proof fn lemma_mirror_team_involution(t: Team)
    ensures
        t.spec_other().spec_other() == t,
{
}

/// Exactly two values indexed by `Team`. Indexing by `Me` or `Other`
/// always selects the slot of the canonical identity at the time of
/// access, never a physical side.
#[derive(Clone, Copy, PartialEq, Eq, Structural, Default, Debug)]
pub struct TeamPair<T> {
    pub me: T,
    pub other: T,
}

/// Mirroring a team-indexed pair swaps the two slots and transforms each
/// slot's contents with the component-level mirror `f`.
pub open spec fn spec_mirror_pair<T>(p: TeamPair<T>, f: spec_fn(T) -> T) -> TeamPair<T> {
    TeamPair { me: f(p.other), other: f(p.me) }
}

impl<T> TeamPair<T> {
    pub fn new(a: T, b: T) -> (p: Self)
        ensures
            p.me == a,
            p.other == b,
    {
        TeamPair { me: a, other: b }
    }

    /// The slot of the given team.
    pub fn get(&self, team: Team) -> (r: &T)
        ensures
            *r == (if team is Me {
                self.me
            } else {
                self.other
            }),
    {
        match team {
            Team::Me => &self.me,
            Team::Other => &self.other,
        }
    }

    /// Replaces the slot of the given team.
    pub fn set(&mut self, team: Team, value: T)
        ensures
            team is Me ==> *final(self) == (TeamPair { me: value, other: old(self).other }),
            team is Other ==> *final(self) == (TeamPair { me: old(self).me, other: value }),
    {
        match team {
            Team::Me => {
                self.me = value;
            },
            Team::Other => {
                self.other = value;
            },
        }
    }

    /// Both slots, `me` first.
    pub fn iter(&self) -> (r: [&T; 2])
        ensures
            r[0] == self.me,
            r[1] == self.other,
    {
        [&self.me, &self.other]
    }

    /// Mutable borrows of both slots, `me` first.
    pub fn iter_mut(&mut self) -> ((me, other): (&mut T, &mut T))
        ensures
            *me == old(self).me,
            *other == old(self).other,
            *final(self) == (TeamPair { me: *final(me), other: *final(other) }),
    {
        (&mut self.me, &mut self.other)
    }
}

impl TeamPair<u32> {
    /// The score pair carries no frame-dependent data in its components,
    /// so its mirror is the bare slot swap.
    pub fn mirror(&mut self, conf: &GameConfig)
        ensures
            *final(self) == spec_mirror_pair(*old(self), (|t: u32| t)),
    {
        let t = self.me;
        self.me = self.other;
        self.other = t;
    }
}

/// A mirrored pair holds, in its `me` slot, the transform of what stood in
/// the `other` slot, and the other way round: the slots swap and each is
/// transformed, not transformed in place.
pub proof fn lemma_mirror_pair_swaps<T>(p: TeamPair<T>, f: spec_fn(T) -> T)
    ensures
        spec_mirror_pair(p, f).me == f(p.other),
        spec_mirror_pair(p, f).other == f(p.me),
{
}

/// Mirroring a team-indexed pair twice returns the original pair whenever
/// the component-level mirror is itself an involution.
pub proof fn lemma_mirror_pair_involution<T>(p: TeamPair<T>, f: spec_fn(T) -> T)
    requires
        forall|t: T| #[trigger] f(f(t)) == t,
    ensures
        spec_mirror_pair(spec_mirror_pair(p, f), f) == p,
{
}

/// A coordinate the model accepts: bounded so that negating it, and
/// reflecting it across the midline of any field, stays within `i64`.
pub open spec fn coord_ok(x: int) -> bool {
    -COORD_LIMIT <= x <= COORD_LIMIT
}

/// A valid free vector: its horizontal component and its negation stay in
/// range. The vertical component never mirrors and is unconstrained.
pub open spec fn dir_ok(v: Vec2) -> bool {
    coord_ok(v.x as int)
}

/// A valid position on a field of width `w`: the coordinate and its
/// reflection both stay in range.
pub open spec fn pos_ok(v: Vec2, w: int) -> bool {
    coord_ok(v.x as int) && coord_ok(w - v.x as int)
}

/// The mirror of a free vector: the horizontal component negates.
pub open spec fn spec_mirror_dir(v: Vec2) -> Vec2 {
    Vec2 { x: (-(v.x as int)) as i64, y: v.y }
}

/// The mirror of a position on a field of width `w`: reflection across the
/// field's vertical midline, `x' == w - x`. Positions are offsets from the
/// field origin, not free vectors, which is why this rule differs from
/// `spec_mirror_dir`.
pub open spec fn spec_mirror_pos(v: Vec2, w: int) -> Vec2 {
    Vec2 { x: (w - v.x as int) as i64, y: v.y }
}

/// The mirror of a player identifier: the identifier moves into the other
/// team's half of the range.
pub open spec fn spec_mirror_player_id(id: u32) -> u32 {
    if id < NUM_PLAYERS {
        (id + NUM_PLAYERS) as u32
    } else {
        (id - NUM_PLAYERS) as u32
    }
}

impl Vec2 {
    /// Mirrors this value as a free vector (a direction or velocity).
    pub fn mirror(&mut self, conf: &GameConfig)
        requires
            dir_ok(*old(self)),
        ensures
            *final(self) == spec_mirror_dir(*old(self)),
    {
        self.x = -self.x;
    }
}

/// Mirrors a position on the configured field.
pub fn mirror_pos(pos: &mut Vec2, conf: &GameConfig)
    requires
        pos_ok(*old(pos), conf.field.width as int),
    ensures
        *final(pos) == spec_mirror_pos(*old(pos), conf.field.width as int),
{
    pos.x = conf.field.width as i64 - pos.x;
}

/// Mirrors a player identifier into the other half of the range.
pub fn mirror_player_id(id: &mut u32)
    ensures
        *final(id) == spec_mirror_player_id(*old(id)),
{
    if *id < NUM_PLAYERS {
        *id += NUM_PLAYERS;
    } else {
        *id -= NUM_PLAYERS;
    }
}

/// Mirroring a free vector twice returns the original vector.
pub proof fn lemma_mirror_dir_involution(v: Vec2)
    requires
        dir_ok(v),
    ensures
        dir_ok(spec_mirror_dir(v)),
        spec_mirror_dir(spec_mirror_dir(v)) == v,
{
}

/// On a field of width `w`, mirroring a position `x` yields `w - x`, and
/// mirroring twice returns the position exactly.
pub proof fn lemma_mirror_pos_involution(v: Vec2, w: int)
    requires
        pos_ok(v, w),
    ensures
        spec_mirror_pos(v, w).x == w - v.x,
        pos_ok(spec_mirror_pos(v, w), w),
        spec_mirror_pos(spec_mirror_pos(v, w), w) == v,
{
}

/// Mirroring a valid player identifier twice returns the original.
pub proof fn lemma_mirror_player_id_involution(id: u32)
    requires
        id < 2 * NUM_PLAYERS,
    ensures
        spec_mirror_player_id(id) < 2 * NUM_PLAYERS,
        spec_mirror_player_id(spec_mirror_player_id(id)) == id,
{
}

/// One player's slot in the state: identity, kinematics and radii, as the
/// engine reports them each tick.
#[derive(Clone, Copy, PartialEq, Eq, Structural, Debug)]
pub struct PlayerState {
    pub id: u32,
    pub pos: Vec2,
    pub dir: Vec2,
    pub speed: i64,
    pub radius: i64,
    pub pickup_radius: i64,
}

/// The player's frame-dependent fields are in range for a field of width
/// `w`, so the player can be mirrored.
pub open spec fn player_frame_ok(p: PlayerState, w: int) -> bool {
    pos_ok(p.pos, w) && dir_ok(p.dir)
}

/// A fully valid player: mirrorable, with an identifier inside
/// `[0, 2 * NUM_PLAYERS)`.
pub open spec fn player_ok(p: PlayerState, w: int) -> bool {
    player_frame_ok(p, w) && p.id < 2 * NUM_PLAYERS
}

/// The mirror of a player: identifier shifted into the other half,
/// position reflected, facing direction negated; speed and radii carry no
/// frame-dependent data.
pub open spec fn spec_mirror_player(p: PlayerState, w: int) -> PlayerState {
    PlayerState {
        id: spec_mirror_player_id(p.id),
        pos: spec_mirror_pos(p.pos, w),
        dir: spec_mirror_dir(p.dir),
        speed: p.speed,
        radius: p.radius,
        pickup_radius: p.pickup_radius,
    }
}

impl PlayerState {
    pub fn mirror(&mut self, conf: &GameConfig)
        requires
            player_frame_ok(*old(self), conf.field.width as int),
        ensures
            *final(self) == spec_mirror_player(*old(self), conf.field.width as int),
    {
        mirror_player_id(&mut self.id);
        mirror_pos(&mut self.pos, conf);
        self.dir.mirror(conf);
    }
}

/// Mirroring a valid player twice returns the original player.
pub proof fn lemma_mirror_player_involution(p: PlayerState, w: int)
    requires
        player_ok(p, w),
    ensures
        player_ok(spec_mirror_player(p, w), w),
        spec_mirror_player(spec_mirror_player(p, w), w) == p,
{
}

/// The action a strategy emits for one player each tick: a desired
/// movement direction and an optional pass target.
#[derive(Clone, Copy, PartialEq, Eq, Structural, Default, Debug)]
pub struct PlayerAction {
    pub dir: Vec2,
    pub pass: StateOption<Vec2>,
}

/// The action's vectors are in range, so the action can be mirrored.
pub open spec fn action_ok(a: PlayerAction) -> bool {
    dir_ok(a.dir) && (a.pass matches StateOption::Present(v) ==> dir_ok(v))
}

/// The mirror of an action: both vectors mirror as free vectors.
pub open spec fn spec_mirror_action(a: PlayerAction) -> PlayerAction {
    PlayerAction {
        dir: spec_mirror_dir(a.dir),
        pass: match a.pass {
            StateOption::Present(v) => StateOption::Present(spec_mirror_dir(v)),
            StateOption::Absent => StateOption::Absent,
        },
    }
}

impl PlayerAction {
    pub fn mirror(&mut self, conf: &GameConfig)
        requires
            action_ok(*old(self)),
        ensures
            *final(self) == spec_mirror_action(*old(self)),
    {
        self.dir.mirror(conf);
        match &mut self.pass {
            StateOption::Present(v) => {
                v.mirror(conf);
            },
            StateOption::Absent => {},
        }
    }
}

/// Mirroring a valid action twice returns the original action.
pub proof fn lemma_mirror_action_involution(a: PlayerAction)
    requires
        action_ok(a),
    ensures
        action_ok(spec_mirror_action(a)),
        spec_mirror_action(spec_mirror_action(a)) == a,
{
}

/// Who may next touch the ball. The engine owns the authoritative copy;
/// the bot only observes it.
#[derive(Clone, Copy, PartialEq, Eq, Structural, Debug)]
pub enum BallPossessionState {
    Possessed { owner: u32, team: Team, capture_ticks: u32 },
    Passing { team: Team },
    Free,
}

/// A valid possession record: an owning player, if any, is a real slot.
pub open spec fn possession_ok(p: BallPossessionState) -> bool {
    p matches BallPossessionState::Possessed { owner, .. } ==> owner < 2 * NUM_PLAYERS
}

/// The mirror of a possession record: the owner's identity and team
/// mirror; `Free` carries no frame-dependent data and is unchanged.
pub open spec fn spec_mirror_possession(p: BallPossessionState) -> BallPossessionState {
    match p {
        BallPossessionState::Possessed { owner, team, capture_ticks } => {
            BallPossessionState::Possessed {
                owner: spec_mirror_player_id(owner),
                team: team.spec_other(),
                capture_ticks,
            }
        },
        BallPossessionState::Passing { team } => {
            BallPossessionState::Passing { team: team.spec_other() }
        },
        BallPossessionState::Free => BallPossessionState::Free,
    }
}

impl BallPossessionState {
    pub fn mirror(&mut self, conf: &GameConfig)
        ensures
            *final(self) == spec_mirror_possession(*old(self)),
    {
        match self {
            BallPossessionState::Possessed { owner, team, .. } => {
                mirror_player_id(owner);
                team.mirror(conf);
            },
            BallPossessionState::Passing { team } => {
                team.mirror(conf);
            },
            BallPossessionState::Free => {},
        }
    }
}

/// Mirroring a valid possession record twice returns the original.
pub proof fn lemma_mirror_possession_involution(p: BallPossessionState)
    requires
        possession_ok(p),
    ensures
        possession_ok(spec_mirror_possession(p)),
        spec_mirror_possession(spec_mirror_possession(p)) == p,
{
}

/// The ball's last center of rest and the tick at which stagnation began;
/// the engine uses it to detect a stalled ball.
#[derive(Clone, Copy, PartialEq, Eq, Structural, Debug)]
pub struct BallStagnationState {
    pub center: Vec2,
    pub tick: u32,
}

/// The mirror of a stagnation record: the recorded center is a position.
pub open spec fn spec_mirror_stagnation(s: BallStagnationState, w: int) -> BallStagnationState {
    BallStagnationState { center: spec_mirror_pos(s.center, w), tick: s.tick }
}

impl BallStagnationState {
    pub fn mirror(&mut self, conf: &GameConfig)
        requires
            pos_ok(old(self).center, conf.field.width as int),
        ensures
            *final(self) == spec_mirror_stagnation(*old(self), conf.field.width as int),
    {
        mirror_pos(&mut self.center, conf);
    }
}

/// Mirroring a valid stagnation record twice returns the original.
pub proof fn lemma_mirror_stagnation_involution(s: BallStagnationState, w: int)
    requires
        pos_ok(s.center, w),
    ensures
        pos_ok(spec_mirror_stagnation(s, w).center, w),
        spec_mirror_stagnation(spec_mirror_stagnation(s, w), w) == s,
{
}

/// The ball's kinematics.
#[derive(Clone, Copy, PartialEq, Eq, Structural, Debug)]
pub struct BallState {
    pub pos: Vec2,
    pub vel: Vec2,
    pub radius: i64,
}

/// The ball's frame-dependent fields are in range for a field of width `w`.
pub open spec fn ball_ok(b: BallState, w: int) -> bool {
    pos_ok(b.pos, w) && dir_ok(b.vel)
}

/// The mirror of the ball: the position reflects, the velocity negates its
/// horizontal component.
pub open spec fn spec_mirror_ball(b: BallState, w: int) -> BallState {
    BallState { pos: spec_mirror_pos(b.pos, w), vel: spec_mirror_dir(b.vel), radius: b.radius }
}

impl BallState {
    pub fn mirror(&mut self, conf: &GameConfig)
        requires
            ball_ok(*old(self), conf.field.width as int),
        ensures
            *final(self) == spec_mirror_ball(*old(self), conf.field.width as int),
    {
        mirror_pos(&mut self.pos, conf);
        self.vel.mirror(conf);
    }
}

/// Mirroring a valid ball twice returns the original ball.
pub proof fn lemma_mirror_ball_involution(b: BallState, w: int)
    requires
        ball_ok(b, w),
    ensures
        ball_ok(spec_mirror_ball(b, w), w),
        spec_mirror_ball(spec_mirror_ball(b, w), w) == b,
{
}

/// Where the entry at index `i` of the full player array lands when the
/// array rotates by `NUM_PLAYERS`: `(i + NUM_PLAYERS) % (2 * NUM_PLAYERS)`.
pub open spec fn rotated_index(i: int) -> int {
    (i + NUM_PLAYERS) % (2 * NUM_PLAYERS)
}

/// `after` is the mirror of the full player array `before`: the array is
/// rotated by `NUM_PLAYERS`, so the half that was the other team's becomes
/// the front half, and every entry is mirrored.
pub open spec fn players_mirrored(after: Seq<PlayerState>, before: Seq<PlayerState>, w: int) -> bool {
    &&& before.len() == 2 * NUM_PLAYERS
    &&& after.len() == 2 * NUM_PLAYERS
    &&& forall|i: int|
        0 <= i < after.len() ==> #[trigger] after[i] == spec_mirror_player(
            before[rotated_index(i)],
            w,
        )
}

/// Every entry of the full player array is valid.
pub open spec fn players_ok(players: Seq<PlayerState>, w: int) -> bool {
    &&& players.len() == 2 * NUM_PLAYERS
    &&& forall|i: int| 0 <= i < players.len() ==> player_ok(#[trigger] players[i], w)
}

/// Rotating twice is the identity on indices of the full player array.
pub proof fn lemma_rotated_index_involution(i: int)
    requires
        0 <= i < 2 * NUM_PLAYERS,
    ensures
        0 <= rotated_index(i) < 2 * NUM_PLAYERS,
        rotated_index(rotated_index(i)) == i,
{
}

/// Mirroring a valid full player array twice returns the original array:
/// the two rotations cancel and every entry's mirror is undone.
pub proof fn lemma_mirror_players_involution(
    a: Seq<PlayerState>,
    b: Seq<PlayerState>,
    c: Seq<PlayerState>,
    w: int,
)
    requires
        players_ok(a, w),
        players_mirrored(b, a, w),
        players_mirrored(c, b, w),
    ensures
        players_ok(b, w),
        c =~= a,
{
    assert forall|i: int| 0 <= i < b.len() implies player_ok(#[trigger] b[i], w) by {
        lemma_rotated_index_involution(i);
        lemma_mirror_player_involution(a[rotated_index(i)], w);
    }
    assert forall|i: int| 0 <= i < c.len() implies c[i] == a[i] by {
        lemma_rotated_index_involution(i);
        assert(c[i] == spec_mirror_player(b[rotated_index(i)], w));
        assert(b[rotated_index(i)] == spec_mirror_player(a[i], w));
        lemma_mirror_player_involution(a[i], w);
    }
}

/// The per-tick snapshot the engine sends with a tick request.
#[derive(Clone, PartialEq, Debug)]
pub struct GameState {
    pub tick: u32,
    pub ball: BallState,
    pub ball_possession: BallPossessionState,
    pub ball_stagnation: BallStagnationState,
    pub players: Vec<PlayerState>,
    pub score: TeamPair<u32>,
}

/// A valid snapshot for a field of width `w`: the player array is full and
/// every frame-dependent field is in range.
pub open spec fn state_ok(s: GameState, w: int) -> bool {
    &&& players_ok(s.players@, w)
    &&& ball_ok(s.ball, w)
    &&& possession_ok(s.ball_possession)
    &&& pos_ok(s.ball_stagnation.center, w)
}

/// `m` is the mirror of the whole snapshot `s`: ball, possession,
/// stagnation, player array and score all mirror; the tick count carries
/// no frame-dependent data.
pub open spec fn state_mirrored(m: GameState, s: GameState, w: int) -> bool {
    &&& m.tick == s.tick
    &&& m.ball == spec_mirror_ball(s.ball, w)
    &&& m.ball_possession == spec_mirror_possession(s.ball_possession)
    &&& m.ball_stagnation == spec_mirror_stagnation(s.ball_stagnation, w)
    &&& players_mirrored(m.players@, s.players@, w)
    &&& m.score == spec_mirror_pair(s.score, (|t: u32| t))
}

impl GameState {
    /// Mirrors the whole snapshot between the absolute and the canonical
    /// frame.
    pub fn mirror(&mut self, conf: &GameConfig)
        requires
            state_ok(*old(self), conf.field.width as int),
        ensures
            state_mirrored(*final(self), *old(self), conf.field.width as int),
            state_ok(*final(self), conf.field.width as int),
    {
        let ghost w = conf.field.width as int;
        self.ball.mirror(conf);
        self.ball_possession.mirror(conf);
        self.ball_stagnation.mirror(conf);
        let count = (2 * NUM_PLAYERS) as usize;
        let mut rotated: Vec<PlayerState> = Vec::new();
        let mut i: usize = 0;
        while i < count
            invariant
                count == 2 * NUM_PLAYERS,
                i <= count,
                rotated@.len() == i,
                players_ok(self.players@, w),
                conf.field.width as int == w,
                forall|j: int|
                    0 <= j < i as int ==> #[trigger] rotated@[j] == spec_mirror_player(
                        self.players@[rotated_index(j)],
                        w,
                    ),
            decreases count - i,
        {
            let idx = (i + NUM_PLAYERS as usize) % count;
            proof {
                lemma_rotated_index_involution(i as int);
                assert(idx as int == rotated_index(i as int));
            }
            let mut p = self.players[idx];
            p.mirror(conf);
            rotated.push(p);
            i += 1;
        }
        self.players = rotated;
        self.score.mirror(conf);
        proof {
            assert forall|j: int| 0 <= j < self.players@.len() implies player_ok(
                #[trigger] self.players@[j],
                w,
            ) by {
                lemma_rotated_index_involution(j);
                lemma_mirror_player_involution(old(self).players@[rotated_index(j)], w);
            }
        }
    }
}

/// Mirroring a valid snapshot twice returns the original snapshot: the law
/// holds for the composite because it holds for the ball, the possession,
/// the stagnation record, the player array and the score independently.
pub proof fn lemma_mirror_state_involution(s: GameState, m: GameState, m2: GameState, w: int)
    requires
        state_ok(s, w),
        state_mirrored(m, s, w),
        state_mirrored(m2, m, w),
    ensures
        state_ok(m, w),
        m2.tick == s.tick,
        m2.ball == s.ball,
        m2.ball_possession == s.ball_possession,
        m2.ball_stagnation == s.ball_stagnation,
        m2.players@ =~= s.players@,
        m2.score == s.score,
{
    lemma_mirror_ball_involution(s.ball, w);
    lemma_mirror_possession_involution(s.ball_possession);
    lemma_mirror_stagnation_involution(s.ball_stagnation, w);
    lemma_mirror_players_involution(s.players@, m.players@, m2.players@, w);
}

impl GameState {
    /// The state at the start of a match: everything at the field center,
    /// the ball free, the score level, one player per slot in identifier
    /// order.
    pub fn new(conf: &GameConfig) -> (s: GameState)
        ensures
            s.tick == 0,
            s.ball.pos.x == conf.field.width / 2,
            s.ball.pos.y == conf.field.height / 2,
            s.ball.vel.x == 0 && s.ball.vel.y == 0,
            s.ball.radius == conf.ball.radius,
            s.ball_possession is Free,
            s.ball_stagnation.center == s.ball.pos,
            s.ball_stagnation.tick == 0,
            s.players@.len() == 2 * NUM_PLAYERS,
            forall|i: int|
                0 <= i < s.players@.len() ==> #[trigger] s.players@[i] == (PlayerState {
                    id: i as u32,
                    pos: s.ball.pos,
                    dir: Vec2 { x: 0, y: 0 },
                    speed: conf.player.speed,
                    radius: conf.player.radius,
                    pickup_radius: conf.player.pickup_radius,
                }),
            s.score.me == 0 && s.score.other == 0,
    {
        let center = conf.field.center();
        let count = (2 * NUM_PLAYERS) as usize;
        let mut players: Vec<PlayerState> = Vec::new();
        let mut i: usize = 0;
        while i < count
            invariant
                count == 2 * NUM_PLAYERS,
                i <= count,
                players@.len() == i,
                forall|j: int|
                    0 <= j < i as int ==> #[trigger] players@[j] == (PlayerState {
                        id: j as u32,
                        pos: center,
                        dir: Vec2 { x: 0, y: 0 },
                        speed: conf.player.speed,
                        radius: conf.player.radius,
                        pickup_radius: conf.player.pickup_radius,
                    }),
            decreases count - i,
        {
            players.push(
                PlayerState {
                    id: i as u32,
                    pos: center,
                    dir: Vec2 { x: 0, y: 0 },
                    speed: conf.player.speed,
                    radius: conf.player.radius,
                    pickup_radius: conf.player.pickup_radius,
                },
            );
            i += 1;
        }
        GameState {
            tick: 0,
            ball: BallState { pos: center, vel: Vec2 { x: 0, y: 0 }, radius: conf.ball.radius },
            ball_possession: BallPossessionState::Free,
            ball_stagnation: BallStagnationState { center, tick: 0 },
            players,
            score: TeamPair { me: 0, other: 0 },
        }
    }

    /// Whether nobody may touch the ball ahead of the next capture.
    pub fn is_ball_free(&self) -> (r: bool)
        ensures
            r == (self.ball_possession is Free),
    {
        matches!(self.ball_possession, BallPossessionState::Free)
    }

    /// The player holding the ball, if any.
    pub fn ball_owner(&self) -> (r: Option<u32>)
        ensures
            r == (match self.ball_possession {
                BallPossessionState::Possessed { owner, .. } => Some(owner),
                _ => None::<u32>,
            }),
    {
        if let BallPossessionState::Possessed { owner, .. } = self.ball_possession {
            Some(owner)
        } else {
            None
        }
    }

    /// Which team a player identifier belongs to in the current frame:
    /// the low half is `Me`, the high half `Other`, anything beyond is no
    /// player.
    pub fn player_team(&self, id: u32) -> (r: Option<Team>)
        ensures
            id < NUM_PLAYERS ==> r == Some(Team::Me),
            NUM_PLAYERS <= id < 2 * NUM_PLAYERS ==> r == Some(Team::Other),
            id >= 2 * NUM_PLAYERS ==> r is None,
    {
        if id < NUM_PLAYERS {
            Some(Team::Me)
        } else if id < NUM_PLAYERS * 2 {
            Some(Team::Other)
        } else {
            None
        }
    }

    /// The two team halves of the player array, copied out in order.
    pub fn teams(&self) -> (r: TeamPair<Vec<PlayerState>>)
        requires
            self.players@.len() == 2 * NUM_PLAYERS,
        ensures
            r.me@ == self.players@.subrange(0, NUM_PLAYERS as int),
            r.other@ == self.players@.subrange(NUM_PLAYERS as int, 2 * NUM_PLAYERS as int),
    {
        let half = NUM_PLAYERS as usize;
        let mut me: Vec<PlayerState> = Vec::new();
        let mut i: usize = 0;
        while i < half
            invariant
                half == NUM_PLAYERS,
                self.players@.len() == 2 * NUM_PLAYERS,
                i <= half,
                me@.len() == i,
                forall|j: int| 0 <= j < i as int ==> #[trigger] me@[j] == self.players@[j],
            decreases half - i,
        {
            me.push(self.players[i]);
            i += 1;
        }
        let mut other: Vec<PlayerState> = Vec::new();
        let mut k: usize = 0;
        while k < half
            invariant
                half == NUM_PLAYERS,
                self.players@.len() == 2 * NUM_PLAYERS,
                k <= half,
                other@.len() == k,
                forall|j: int|
                    0 <= j < k as int ==> #[trigger] other@[j] == self.players@[j + NUM_PLAYERS],
            decreases half - k,
        {
            other.push(self.players[half + k]);
            k += 1;
        }
        proof {
            assert(me@ =~= self.players@.subrange(0, NUM_PLAYERS as int));
            assert(other@ =~= self.players@.subrange(NUM_PLAYERS as int, 2 * NUM_PLAYERS as int));
        }
        TeamPair { me, other }
    }
}

} // verus!
