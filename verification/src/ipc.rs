//! The single-slot request/response channel shared with the engine.
//!
//! The shared region holds one synchronization byte followed by a tagged
//! union buffer. The engine deposits a request and flips the byte to
//! `Ready`; the bot reads the request by its tag, overwrites the buffer
//! with the matching response, and flips the byte to `Busy`. Ownership of
//! the buffer is tracked by that byte alone: the bot touches the buffer
//! only strictly between observing `Ready` and writing `Busy`, and it
//! never writes `Ready` — only the engine may grant the bot ownership.
//!
//! `EngineChannel` is that discipline as a state machine. The process
//! boundary that owns the mapped memory drives it: it reports each flag
//! and tag it reads (`observe_ready`), asks which handler a request
//! selects (`check_first_tag`, `dispatch`), and marks the deposit of the
//! response (`respond`, or the payload-carrying `handle_handshake` and
//! `handle_msg`). Every transition's contract says when a response may be
//! written and what the flag is afterwards.

use vstd::prelude::*;

use crate::config::GameConfig;
use crate::config::NUM_PLAYERS;
use crate::state::GameState;
use crate::state::PlayerAction;
use crate::state::StateOption;
use crate::state::TeamPair;
use crate::util::Vec2;

verus! {

/// The two defined values of the channel's synchronization byte. `Ready`
/// means the engine has deposited a request and the bot may read the
/// buffer; `Busy` means the bot owns the buffer or has already answered.
#[derive(Clone, Copy, PartialEq, Eq, Structural, Debug)]
pub enum EngineStatus {
    Ready,
    Busy,
}

/// The wire value of a synchronization state.
pub open spec fn spec_status_byte(s: EngineStatus) -> u8 {
    match s {
        EngineStatus::Ready => 0,
        EngineStatus::Busy => 1,
    }
}

impl EngineStatus {
    /// The byte stored in the shared region for this state.
    pub fn byte(&self) -> (b: u8)
        ensures
            b == spec_status_byte(*self),
    {
        match self {
            EngineStatus::Ready => 0,
            EngineStatus::Busy => 1,
        }
    }
}

/// The three exchanges the channel knows. Each pairs a request the engine
/// writes with a response the bot writes over it.
#[derive(Clone, Copy, PartialEq, Eq, Structural, Debug)]
pub enum ProtocolId {
    Handshake,
    Reset,
    Tick,
}

/// The tag byte of an exchange's request.
pub open spec fn spec_request_tag(p: ProtocolId) -> u8 {
    match p {
        ProtocolId::Handshake => 0,
        ProtocolId::Reset => 2,
        ProtocolId::Tick => 4,
    }
}

/// The tag byte of an exchange's response: one past its request.
pub open spec fn spec_response_tag(p: ProtocolId) -> u8 {
    match p {
        ProtocolId::Handshake => 1,
        ProtocolId::Reset => 3,
        ProtocolId::Tick => 5,
    }
}

/// The exchange whose request carries the given tag byte, if any.
pub open spec fn spec_parse_request_tag(tag: u8) -> Option<ProtocolId> {
    if tag == 0 {
        Some(ProtocolId::Handshake)
    } else if tag == 2 {
        Some(ProtocolId::Reset)
    } else if tag == 4 {
        Some(ProtocolId::Tick)
    } else {
        None
    }
}

/// The tag byte the engine writes with this exchange's request.
pub fn request_tag(p: ProtocolId) -> (t: u8)
    ensures
        t == spec_request_tag(p),
{
    match p {
        ProtocolId::Handshake => 0,
        ProtocolId::Reset => 2,
        ProtocolId::Tick => 4,
    }
}

/// The tag byte the bot writes with this exchange's response.
pub fn response_tag(p: ProtocolId) -> (t: u8)
    ensures
        t == spec_response_tag(p),
{
    match p {
        ProtocolId::Handshake => 1,
        ProtocolId::Reset => 3,
        ProtocolId::Tick => 5,
    }
}

/// Reads a tag byte back as the exchange it requests, if it is one.
pub fn parse_request_tag(tag: u8) -> (r: Option<ProtocolId>)
    ensures
        r == spec_parse_request_tag(tag),
{
    if tag == 0 {
        Some(ProtocolId::Handshake)
    } else if tag == 2 {
        Some(ProtocolId::Reset)
    } else if tag == 4 {
        Some(ProtocolId::Tick)
    } else {
        None
    }
}

/// The handshake request's payload: which physical side the bot was
/// assigned, and the full match configuration.
#[derive(Clone, Copy, PartialEq, Eq, Structural, Debug)]
pub struct HandshakeMsg {
    pub team: u8,
    pub config: GameConfig,
}

/// The fixed acknowledgement value the bot answers a handshake with.
pub const HANDSHAKE_BOT: u64 = 0xabe119c019aaffcc;

/// The tagged union carried in the shared buffer: one variant per tag
/// value, requests and responses interleaved, response right after its
/// request.
#[derive(Clone, PartialEq, Debug)]
pub enum ProtocolUnion {
    HandshakeMsg(HandshakeMsg),
    HandshakeResponse(u64),
    ResetMsg(TeamPair<u32>),
    ResetResponse(Vec<Vec2>),
    TickMsg(GameState),
    TickResponse(Vec<PlayerAction>),
}

impl ProtocolUnion {
    /// The tag value of this variant in the shared buffer.
    pub open spec fn spec_tag(self) -> u8 {
        match self {
            ProtocolUnion::HandshakeMsg(..) => 0,
            ProtocolUnion::HandshakeResponse(..) => 1,
            ProtocolUnion::ResetMsg(..) => 2,
            ProtocolUnion::ResetResponse(..) => 3,
            ProtocolUnion::TickMsg(..) => 4,
            ProtocolUnion::TickResponse(..) => 5,
        }
    }

    pub fn tag(&self) -> (t: u8)
        ensures
            t == self.spec_tag(),
    {
        match self {
            ProtocolUnion::HandshakeMsg(..) => 0,
            ProtocolUnion::HandshakeResponse(..) => 1,
            ProtocolUnion::ResetMsg(..) => 2,
            ProtocolUnion::ResetResponse(..) => 3,
            ProtocolUnion::TickMsg(..) => 4,
            ProtocolUnion::TickResponse(..) => 5,
        }
    }
}

/// Why the channel refuses a request. Both cases are unrecoverable
/// desynchronizations: the caller reports the first and aborts on the
/// second, never resynchronizes.
#[derive(Clone, Copy, PartialEq, Eq, Structural, Debug)]
pub enum ProtocolError {
    /// The first request observed was not a handshake: the two processes
    /// disagree on the protocol and cannot be reconciled.
    NotHandshake,
    /// A later request's tag was not a reset or tick request.
    UnexpectedMessage,
}

/// The two callbacks a strategy author supplies. The channel hands them
/// canonical-frame data and knows nothing else about them; each impl pins
/// its own outputs down with its two spec functions.
pub trait Strategy {
    /// What the reset handler returns: one initial position per own-side
    /// player.
    spec fn spec_on_reset(&self, score: TeamPair<u32>) -> Seq<Vec2>;

    /// What the tick handler returns: one action per own-side player.
    spec fn spec_on_tick(&self, state: GameState) -> Seq<PlayerAction>;

    /// Invoked when the field resets, with the running score.
    fn on_reset(&self, score: &TeamPair<u32>) -> (placements: Vec<Vec2>)
        ensures
            placements@ == self.spec_on_reset(*score),
            placements@.len() == NUM_PLAYERS as nat,
    ;

    /// Invoked once per tick, with the full snapshot.
    fn on_tick(&self, state: &GameState) -> (actions: Vec<PlayerAction>)
        ensures
            actions@ == self.spec_on_tick(*state),
            actions@.len() == NUM_PLAYERS as nat,
    ;
}

/// A strategy whose players stand still and never pass.
pub struct IdleStrategy;

impl Strategy for IdleStrategy {
    open spec fn spec_on_reset(&self, score: TeamPair<u32>) -> Seq<Vec2> {
        Seq::new(NUM_PLAYERS as nat, |i: int| Vec2 { x: 0, y: 0 })
    }

    open spec fn spec_on_tick(&self, state: GameState) -> Seq<PlayerAction> {
        Seq::new(
            NUM_PLAYERS as nat,
            |i: int| PlayerAction { dir: Vec2 { x: 0, y: 0 }, pass: StateOption::Absent },
        )
    }

    fn on_reset(&self, score: &TeamPair<u32>) -> (placements: Vec<Vec2>)
        ensures
            placements@ == self.spec_on_reset(*score),
            placements@.len() == NUM_PLAYERS as nat,
    {
        let mut placements: Vec<Vec2> = Vec::new();
        let mut i: usize = 0;
        while i < NUM_PLAYERS as usize
            invariant
                i <= NUM_PLAYERS,
                placements@.len() == i,
                forall|j: int|
                    0 <= j < i as int ==> #[trigger] placements@[j] == (Vec2 { x: 0, y: 0 }),
            decreases NUM_PLAYERS as int - i as int,
        {
            placements.push(Vec2::zero());
            i += 1;
        }
        proof {
            assert(placements@ =~= self.spec_on_reset(*score));
        }
        placements
    }

    fn on_tick(&self, state: &GameState) -> (actions: Vec<PlayerAction>)
        ensures
            actions@ == self.spec_on_tick(*state),
            actions@.len() == NUM_PLAYERS as nat,
    {
        let mut actions: Vec<PlayerAction> = Vec::new();
        let mut i: usize = 0;
        while i < NUM_PLAYERS as usize
            invariant
                i <= NUM_PLAYERS,
                actions@.len() == i,
                forall|j: int|
                    0 <= j < i as int ==> #[trigger] actions@[j] == (PlayerAction {
                        dir: Vec2 { x: 0, y: 0 },
                        pass: StateOption::Absent,
                    }),
            decreases NUM_PLAYERS as int - i as int,
        {
            actions.push(PlayerAction { dir: Vec2::zero(), pass: StateOption::Absent });
            i += 1;
        }
        proof {
            assert(actions@ =~= self.spec_on_tick(*state));
        }
        actions
    }
}

/// The bot's side of the channel discipline: which process owns the
/// buffer, which request is pending, and the facts the handshake fixed.
pub struct EngineChannel {
    status: EngineStatus,
    pending: Option<u8>,
    handshake: Option<HandshakeMsg>,
}

impl EngineChannel {
    /// The channel flag as the bot knows it: `Ready` exactly while the bot
    /// owns the buffer, between observing the engine's grant and writing
    /// its response.
    pub closed spec fn status(self) -> EngineStatus {
        self.status
    }

    /// The tag of the request observed with the last grant, while the bot
    /// owns the buffer.
    pub closed spec fn pending_tag(self) -> Option<u8> {
        self.pending
    }

    /// The team assignment and configuration the handshake fixed, once it
    /// has happened.
    pub closed spec fn facts(self) -> Option<HandshakeMsg> {
        self.handshake
    }

    /// Whether the one-time handshake has happened.
    pub open spec fn handshaken(self) -> bool {
        self.facts() is Some
    }

    /// The physical side the engine assigned at handshake.
    pub open spec fn spec_team(self) -> u8
        recommends
            self.handshaken(),
    {
        self.facts()->Some_0.team
    }

    /// The configuration received at handshake.
    pub open spec fn spec_config(self) -> GameConfig
        recommends
            self.handshaken(),
    {
        self.facts()->Some_0.config
    }

    /// A fresh channel: the engine owns the buffer, nothing is pending,
    /// and no handshake has happened.
    pub fn new() -> (c: EngineChannel)
        ensures
            c.status() is Busy,
            c.pending_tag() is None,
            !c.handshaken(),
    {
        EngineChannel { status: EngineStatus::Busy, pending: None, handshake: None }
    }

    /// One poll of the synchronization byte, reporting the flag and the
    /// request tag that were read. Ownership passes to the bot exactly
    /// when the flag reads `Ready`; on any other value nothing changes
    /// and the bot keeps waiting. Only the engine's write can make this
    /// succeed: the bot never writes `Ready` itself.
    pub fn observe_ready(&mut self, flag: u8, tag: u8) -> (took: bool)
        requires
            old(self).status() is Busy,
        ensures
            took == (flag == spec_status_byte(EngineStatus::Ready)),
            took ==> final(self).status() is Ready && final(self).pending_tag() == Some(tag),
            took ==> slot_of(*final(self)) == slot_step(slot_of(*old(self)), SlotOp::Grant(tag))
                && slot_allowed(slot_of(*old(self)), SlotOp::Grant(tag)),
            !took ==> *final(self) == *old(self),
            final(self).facts() == old(self).facts(),
    {
        if flag == EngineStatus::Ready.byte() {
            self.status = EngineStatus::Ready;
            self.pending = Some(tag);
            true
        } else {
            false
        }
    }

    /// The handshake gate on a bare tag: before a successful handshake,
    /// the only request the bot may answer is a handshake request; any
    /// other first message fails distinctly, and the team and
    /// configuration stay unset.
    pub fn check_first_tag(&self, tag: u8) -> (r: Result<(), ProtocolError>)
        requires
            !self.handshaken(),
        ensures
            r == (if tag == spec_request_tag(ProtocolId::Handshake) {
                Ok::<(), ProtocolError>(())
            } else {
                Err::<(), ProtocolError>(ProtocolError::NotHandshake)
            }),
    {
        if tag == request_tag(ProtocolId::Handshake) {
            Ok(())
        } else {
            Err(ProtocolError::NotHandshake)
        }
    }

    /// Fixes the team assignment and configuration carried by the observed
    /// handshake request, marks the response deposited, and returns the
    /// acknowledgement value to write back. Happens at most once: after
    /// it, `handshaken` holds forever.
    pub fn record_handshake(&mut self, msg: &HandshakeMsg) -> (ack: u64)
        requires
            old(self).status() is Ready,
            old(self).pending_tag() == Some(spec_request_tag(ProtocolId::Handshake)),
            !old(self).handshaken(),
        ensures
            ack == HANDSHAKE_BOT,
            final(self).facts() == Some(*msg),
            final(self).status() is Busy,
            final(self).pending_tag() is None,
    {
        self.handshake = Some(*msg);
        self.status = EngineStatus::Busy;
        self.pending = None;
        HANDSHAKE_BOT
    }

    /// The one-time handshake on a full message: a handshake request is
    /// acknowledged and its facts are fixed; any other message fails
    /// distinctly and leaves the channel — team and configuration
    /// unset — exactly as it was.
    pub fn handle_handshake(&mut self, msg: &ProtocolUnion) -> (r: Result<
        ProtocolUnion,
        ProtocolError,
    >)
        requires
            old(self).status() is Ready,
            old(self).pending_tag() == Some(msg.spec_tag()),
            !old(self).handshaken(),
        ensures
            r is Ok <==> *msg is HandshakeMsg,
            *msg matches ProtocolUnion::HandshakeMsg(h) ==> r == Ok::<ProtocolUnion, ProtocolError>(
                ProtocolUnion::HandshakeResponse(HANDSHAKE_BOT),
            ) && final(self).facts() == Some(h) && final(self).status() is Busy
                && final(self).pending_tag() is None,
            !(*msg is HandshakeMsg) ==> r == Err::<ProtocolUnion, ProtocolError>(
                ProtocolError::NotHandshake,
            ) && *final(self) == *old(self),
    {
        match msg {
            ProtocolUnion::HandshakeMsg(h) => {
                let ack = self.record_handshake(h);
                Ok(ProtocolUnion::HandshakeResponse(ack))
            },
            _ => Err(ProtocolError::NotHandshake),
        }
    }

    /// Which handler the observed request selects, once the handshake is
    /// done. A handshake recurring, a response tag, or an unrecognized
    /// value is an unrecoverable protocol violation: the caller must
    /// abort rather than answer, since any recovery would desynchronize
    /// the two processes' view of buffer ownership.
    pub fn dispatch(&self, tag: u8) -> (r: Result<ProtocolId, ProtocolError>)
        requires
            self.handshaken(),
            self.status() is Ready,
            self.pending_tag() == Some(tag),
        ensures
            r == (if tag == spec_request_tag(ProtocolId::Reset) {
                Ok::<ProtocolId, ProtocolError>(ProtocolId::Reset)
            } else if tag == spec_request_tag(ProtocolId::Tick) {
                Ok::<ProtocolId, ProtocolError>(ProtocolId::Tick)
            } else {
                Err::<ProtocolId, ProtocolError>(ProtocolError::UnexpectedMessage)
            }),
    {
        if tag == request_tag(ProtocolId::Reset) {
            Ok(ProtocolId::Reset)
        } else if tag == request_tag(ProtocolId::Tick) {
            Ok(ProtocolId::Tick)
        } else {
            Err(ProtocolError::UnexpectedMessage)
        }
    }

    /// Marks the response to the pending request deposited and returns the
    /// byte to store in the synchronization flag: `Busy`, giving the
    /// buffer back to the engine. A response can only ever be deposited
    /// while the bot owns the buffer, that is after `observe_ready` saw
    /// the engine's grant; afterwards the flag stays `Busy` until the
    /// engine grants again.
    pub fn respond(&mut self) -> (flag: u8)
        requires
            old(self).status() is Ready,
        ensures
            flag == spec_status_byte(EngineStatus::Busy),
            final(self).status() is Busy,
            final(self).pending_tag() is None,
            slot_of(*final(self)) == slot_step(slot_of(*old(self)), SlotOp::Deposit),
            slot_allowed(slot_of(*old(self)), SlotOp::Deposit),
            final(self).facts() == old(self).facts(),
    {
        self.status = EngineStatus::Busy;
        self.pending = None;
        EngineStatus::Busy.byte()
    }

    /// Answers one post-handshake request on a full message: a reset
    /// request is answered with the strategy's placements, a tick request
    /// with the strategy's actions; anything else is the unrecoverable
    /// protocol violation of `dispatch`, answered with nothing and
    /// changing nothing.
    pub fn handle_msg<S: Strategy>(&mut self, msg: &ProtocolUnion, strategy: &S) -> (r: Result<
        ProtocolUnion,
        ProtocolError,
    >)
        requires
            old(self).status() is Ready,
            old(self).pending_tag() == Some(msg.spec_tag()),
            old(self).handshaken(),
        ensures
            r is Ok <==> (*msg is ResetMsg || *msg is TickMsg),
            *msg matches ProtocolUnion::ResetMsg(score) ==> (r matches Ok(resp) && resp matches
                ProtocolUnion::ResetResponse(placements) && placements@ == strategy.spec_on_reset(
                score,
            ) && placements@.len() == NUM_PLAYERS as nat),
            *msg matches ProtocolUnion::TickMsg(state) ==> (r matches Ok(resp) && resp matches
                ProtocolUnion::TickResponse(actions) && actions@ == strategy.spec_on_tick(state)
                && actions@.len() == NUM_PLAYERS as nat),
            r is Ok ==> final(self).status() is Busy && final(self).pending_tag() is None,
            r is Err ==> r == Err::<ProtocolUnion, ProtocolError>(ProtocolError::UnexpectedMessage)
                && *final(self) == *old(self),
            final(self).facts() == old(self).facts(),
    {
        match msg {
            ProtocolUnion::ResetMsg(score) => {
                let placements = strategy.on_reset(score);
                let _flag = self.respond();
                Ok(ProtocolUnion::ResetResponse(placements))
            },
            ProtocolUnion::TickMsg(state) => {
                let actions = strategy.on_tick(state);
                let _flag = self.respond();
                Ok(ProtocolUnion::TickResponse(actions))
            },
            _ => Err(ProtocolError::UnexpectedMessage),
        }
    }
}

/// The channel state the ordering law speaks about: the synchronization
/// flag and the tag of the pending request. `EngineChannel` carries
/// exactly this through `status` and `pending_tag`.
pub struct SlotState {
    pub flag: EngineStatus,
    pub pending: Option<u8>,
}

/// One step of the single-slot discipline. `Grant` is the engine's write
/// observed by `observe_ready` when the flag read `Ready`; `Deposit` is
/// the bot's response write, performed by `respond`, `record_handshake`
/// and the answering cases of `handle_handshake` and `handle_msg`.
#[derive(Clone, Copy, PartialEq, Eq, Structural, Debug)]
pub enum SlotOp {
    Grant(u8),
    Deposit,
}

/// The state before any exchange: the engine owns the buffer.
pub open spec fn initial_slot() -> SlotState {
    SlotState { flag: EngineStatus::Busy, pending: None }
}

/// The slot state a channel is in: `EngineChannel::new` starts at
/// `initial_slot`, a successful `observe_ready` steps by `Grant`, and
/// `respond` — so also `record_handshake` and the answering cases of
/// `handle_handshake` and `handle_msg` — steps by `Deposit`, each allowed
/// where its contract lets it happen. Sequences of those calls are
/// therefore exactly the traces `lemma_single_slot_ordering` speaks about.
pub open spec fn slot_of(c: EngineChannel) -> SlotState {
    SlotState { flag: c.status(), pending: c.pending_tag() }
}

/// When a step may happen: the engine grants only a buffer it owns, the
/// bot deposits only into a buffer it was granted.
pub open spec fn slot_allowed(s: SlotState, op: SlotOp) -> bool {
    match op {
        SlotOp::Grant(..) => s.flag is Busy,
        SlotOp::Deposit => s.flag is Ready,
    }
}

/// What a step does: a grant hands the buffer to the bot with the
/// request's tag pending, a deposit hands it back.
pub open spec fn slot_step(s: SlotState, op: SlotOp) -> SlotState {
    match op {
        SlotOp::Grant(tag) => SlotState { flag: EngineStatus::Ready, pending: Some(tag) },
        SlotOp::Deposit => SlotState { flag: EngineStatus::Busy, pending: None },
    }
}

/// The state after running a sequence of steps.
pub open spec fn slot_run(s: SlotState, ops: Seq<SlotOp>) -> SlotState
    decreases ops.len(),
{
    if ops.len() == 0 {
        s
    } else {
        slot_step(slot_run(s, ops.drop_last()), ops.last())
    }
}

/// Every step of the sequence happens in a state that allows it.
pub open spec fn slot_trace_ok(s: SlotState, ops: Seq<SlotOp>) -> bool
    decreases ops.len(),
{
    ops.len() == 0 || (slot_trace_ok(s, ops.drop_last()) && slot_allowed(
        slot_run(s, ops.drop_last()),
        ops.last(),
    ))
}

proof fn lemma_slot_run_unfold(s: SlotState, ops: Seq<SlotOp>, m: int)
    requires
        1 <= m <= ops.len(),
    ensures
        slot_run(s, ops.take(m)) == slot_step(slot_run(s, ops.take(m - 1)), ops[m - 1]),
{
    let t = ops.take(m);
    assert(t.drop_last() =~= ops.take(m - 1));
    assert(t.last() == ops[m - 1]);
}

proof fn lemma_slot_trace_ok_prefix(s: SlotState, ops: Seq<SlotOp>, m: int)
    requires
        slot_trace_ok(s, ops),
        0 <= m <= ops.len(),
    ensures
        slot_trace_ok(s, ops.take(m)),
    decreases ops.len(),
{
    if m == ops.len() {
        assert(ops.take(m) =~= ops);
    } else {
        assert(ops.drop_last().take(m) =~= ops.take(m));
        lemma_slot_trace_ok_prefix(s, ops.drop_last(), m);
    }
}

proof fn lemma_slot_alternation_upto(ops: Seq<SlotOp>, m: int)
    requires
        slot_trace_ok(initial_slot(), ops),
        0 <= m <= ops.len(),
    ensures
        slot_run(initial_slot(), ops.take(m)).flag is Busy <==> m % 2 == 0,
        m % 2 == 1 ==> (ops[m - 1] matches SlotOp::Grant(t) && slot_run(
            initial_slot(),
            ops.take(m),
        ).pending == Some(t)),
        forall|i: int| 0 <= i < m ==> ((#[trigger] ops[i]) is Grant <==> i % 2 == 0),
    decreases m,
{
    if m == 0 {
        assert(ops.take(0) =~= Seq::<SlotOp>::empty());
    } else {
        lemma_slot_alternation_upto(ops, m - 1);
        lemma_slot_trace_ok_prefix(initial_slot(), ops, m);
        assert(ops.take(m).drop_last() =~= ops.take(m - 1));
        assert(ops.take(m).last() == ops[m - 1]);
        assert(slot_allowed(slot_run(initial_slot(), ops.take(m - 1)), ops[m - 1]));
        lemma_slot_run_unfold(initial_slot(), ops, m);
    }
}

/// The single-slot ordering law. In every sequence of steps the discipline
/// accepts from the initial state, the engine's grants and the bot's
/// response deposits strictly alternate, a grant first: no response is
/// ever written before a request has been observed as `Ready`, the tag
/// pending at a deposit is the granted request's tag, and after each
/// deposit the flag reads `Busy` — and stays so — until the engine's next
/// grant, the only step that makes it `Ready`.
pub proof fn lemma_single_slot_ordering(ops: Seq<SlotOp>)
    requires
        slot_trace_ok(initial_slot(), ops),
    ensures
        forall|i: int| 0 <= i < ops.len() ==> ((#[trigger] ops[i]) is Grant <==> i % 2 == 0),
        forall|m: int|
            0 <= m <= ops.len() ==> (slot_run(initial_slot(), #[trigger] ops.take(m)).flag is Busy
                <==> m % 2 == 0),
        forall|m: int|
            0 <= m <= ops.len() && m % 2 == 1 ==> (ops[m - 1] matches SlotOp::Grant(t) && slot_run(
                initial_slot(),
                #[trigger] ops.take(m),
            ).pending == Some(t)),
{
    lemma_slot_alternation_upto(ops, ops.len() as int);
    assert forall|m: int| 0 <= m <= ops.len() implies (slot_run(
        initial_slot(),
        #[trigger] ops.take(m),
    ).flag is Busy <==> m % 2 == 0) by {
        lemma_slot_alternation_upto(ops, m);
    }
    assert forall|m: int| 0 <= m <= ops.len() && m % 2 == 1 implies (ops[m - 1] matches
        SlotOp::Grant(t) && slot_run(initial_slot(), #[trigger] ops.take(m)).pending == Some(
        t,
    )) by {
        lemma_slot_alternation_upto(ops, m);
    }
}

/// The physical side the engine assigned, fixed at handshake and read by
/// every later handler.
pub fn get_real_team(chan: &EngineChannel) -> (t: u8)
    requires
        chan.handshaken(),
    ensures
        t == chan.spec_team(),
{
    match &chan.handshake {
        Some(h) => h.team,
        None => vstd::pervasive::unreached(),
    }
}

/// The configuration the engine sent, fixed at handshake and read by
/// every later handler.
pub fn get_config(chan: &EngineChannel) -> (conf: &GameConfig)
    requires
        chan.handshaken(),
    ensures
        *conf == chan.spec_config(),
{
    match &chan.handshake {
        Some(h) => &h.config,
        None => vstd::pervasive::unreached(),
    }
}

/// What a waiting bot should do on one more unsuccessful poll of the
/// synchronization byte. The escalation trades latency for CPU the longer
/// the engine keeps the bot waiting: briefly spin, next yield within the
/// process, and finally sleep for a duration that grows with the wait.
#[derive(Clone, Copy, PartialEq, Eq, Structural, Debug)]
pub enum WaitAction {
    /// Busy-spin: cheapest to leave, burns a core.
    Spin,
    /// Yield to other work on the same scheduler without sleeping.
    YieldNow,
    /// Sleep for the given number of microseconds.
    Sleep(u64),
}

/// The wait policy, one decision per poll iteration: the first hundred
/// polls spin, polls up to the thousandth yield, and every later poll
/// sleeps a tenth of a microsecond per iteration waited so far.
pub fn wait_action(iteration: u64) -> (a: WaitAction)
    ensures
        iteration < 100 ==> a is Spin,
        100 <= iteration < 1000 ==> a is YieldNow,
        iteration >= 1000 ==> a == WaitAction::Sleep(iteration / 10),
{
    if iteration < 100 {
        WaitAction::Spin
    } else if iteration < 1000 {
        WaitAction::YieldNow
    } else {
        WaitAction::Sleep(iteration / 10)
    }
}

} // verus!
