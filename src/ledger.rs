//! The ledger side: public session and participant records, the table of
//! queued computations, and the decisions taken when a request arrives and
//! when the cluster delivers its result. Reading the clock, moving accounts
//! and handing the queued computation to the cluster are left to the caller.
use vstd::prelude::*;

verus! {

/// A 32-byte account address.
#[derive(Clone, Copy, Debug, PartialEq, Eq)]
pub struct AccountKey {
    pub bytes: [u8; 32],
}

impl AccountKey {
    /// Whether both keys hold the same bytes.
    pub fn same_as(&self, other: &AccountKey) -> (r: bool)
        ensures
            r == (self.bytes@ == other.bytes@),
    {
        let mut i: usize = 0;
        while i < 32
            invariant
                i <= 32,
                forall|j: int| 0 <= j < i ==> self.bytes@[j] == other.bytes@[j],
            decreases 32 - i,
        {
            if self.bytes[i] != other.bytes[i] {
                return false;
            }
            i = i + 1;
        }
        assert(self.bytes@ =~= other.bytes@);
        true
    }
}

/// Public record of one game session.
#[derive(Clone, Copy, Debug, PartialEq, Eq)]
pub struct Game {
    pub authority: AccountKey,
    pub player_count: u32,
    pub created_at: i64,
    pub is_active: bool,
}

/// Public record of one participant: counters only, never position,
/// resource or vitality.
#[derive(Clone, Copy, Debug, PartialEq, Eq)]
pub struct PlayerAccount {
    pub wallet: AccountKey,
    pub game: AccountKey,
    pub joined_at: i64,
    pub tiles_explored: u32,
    pub treasures_found: u32,
    pub traps_triggered: u32,
}

/// The kind of a participant action.
#[derive(Clone, Copy, Debug, PartialEq, Eq, Structural)]
pub enum ActionType {
    Move,
    Explore,
    Bury,
    Dig,
}

/// Rejections reported before anything is queued or applied.
#[derive(Clone, Copy, Debug, PartialEq, Eq, Structural)]
pub enum GameError {
    /// The session no longer accepts actions.
    GameNotActive,
    /// The participant record already exists.
    PlayerAlreadyRegistered,
    /// The signer does not own the participant record, or the record belongs
    /// to another session.
    Unauthorized,
    /// Another queued computation already holds this correlation id.
    DuplicateComputation,
    /// No queued computation of this kind holds this correlation id.
    UnknownComputation,
    /// A public counter would overflow.
    CounterOverflow,
}

/// The cluster instruction a computation runs.
#[derive(Clone, Copy, Debug, PartialEq, Eq, Structural)]
pub enum ComputationKind {
    InitMap,
    InitBuriedLayer,
    RegisterPlayer,
    MovePlayer,
    Explore,
    Bury,
    Dig,
}

/// The instruction's name, by which the cluster knows it.
pub open spec fn instruction_name(k: ComputationKind) -> Seq<char> {
    match k {
        ComputationKind::InitMap => "init_map"@,
        ComputationKind::InitBuriedLayer => "init_buried_layer"@,
        ComputationKind::RegisterPlayer => "register_player"@,
        ComputationKind::MovePlayer => "move_player"@,
        ComputationKind::Explore => "explore"@,
        ComputationKind::Bury => "bury"@,
        ComputationKind::Dig => "dig"@,
    }
}

/// Offset of the computation definition registered for an instruction name.
pub uninterp spec fn comp_def_offset_of(name: Seq<char>) -> u32;

/// Relies on arcium_anchor::comp_def_offset: the definition offset of an
/// instruction, derived from its name alone.
#[verifier::external_body]
fn offset_of_name(name: &str) -> (r: u32)
    ensures
        r == comp_def_offset_of(name@),
{
    arcium_anchor::comp_def_offset(name)
}

impl ComputationKind {
    /// The instruction's name.
    pub fn name(&self) -> (r: &'static str)
        ensures
            r@ == instruction_name(*self),
    {
        match self {
            ComputationKind::InitMap => "init_map",
            ComputationKind::InitBuriedLayer => "init_buried_layer",
            ComputationKind::RegisterPlayer => "register_player",
            ComputationKind::MovePlayer => "move_player",
            ComputationKind::Explore => "explore",
            ComputationKind::Bury => "bury",
            ComputationKind::Dig => "dig",
        }
    }

    /// Offset of the computation definition this kind runs under.
    pub fn offset(&self) -> (r: u32)
        ensures
            r == comp_def_offset_of(instruction_name(*self)),
    {
        offset_of_name(self.name())
    }
}

/// One argument handed to the cluster with a queued computation.
#[derive(Clone, Debug, PartialEq, Eq)]
pub enum Argument {
    ArcisPubkey([u8; 32]),
    PlaintextU128(u128),
    Ciphertext(Vec<u8>),
}

/// A computation to hand to the cluster.
#[derive(Clone, Debug, PartialEq, Eq)]
pub struct QueuedComputation {
    pub comp_def_offset: u32,
    pub computation_offset: u64,
    pub args: Vec<Argument>,
}

/// The arguments of a call sealed under a caller's key: the caller's public
/// key, the nonce and the ciphertext, in this order.
pub open spec fn sealed_call_args(args: Seq<Argument>, pub_key: [u8; 32], nonce: u128, ciphertext: [u8; 32]) -> bool {
    &&& args.len() == 3
    &&& args[0] == Argument::ArcisPubkey(pub_key)
    &&& args[1] == Argument::PlaintextU128(nonce)
    &&& args[2] matches Argument::Ciphertext(c) && c@ == ciphertext@
}

/// A queued computation of kind `k` under `offset`.
pub open spec fn queued_as(q: QueuedComputation, k: ComputationKind, offset: u64) -> bool {
    &&& q.comp_def_offset == comp_def_offset_of(instruction_name(k))
    &&& q.computation_offset == offset
}

/// The correlation record of a computation between queueing and delivery.
#[derive(Clone, Copy, Debug, PartialEq, Eq)]
pub struct PendingComputation {
    pub computation_offset: u64,
    pub kind: ComputationKind,
    pub requester: AccountKey,
}

/// Computations queued and not yet delivered, at most one per correlation id.
pub struct PendingTable {
    entries: Vec<PendingComputation>,
}

impl View for PendingTable {
    type V = Seq<PendingComputation>;

    closed spec fn view(&self) -> Seq<PendingComputation> {
        self.entries@
    }
}

impl PendingTable {
    /// No two entries share a correlation id.
    pub open spec fn wf(&self) -> bool {
        forall|i: int, j: int|
            0 <= i < j < self@.len() ==> (#[trigger] self@[i]).computation_offset
                != (#[trigger] self@[j]).computation_offset
    }

    /// Some entry holds `offset`.
    pub open spec fn holds(&self, offset: u64) -> bool {
        exists|j: int| 0 <= j < self@.len() && (#[trigger] self@[j]).computation_offset == offset
    }

    /// Position of the entry that holds `offset`.
    pub open spec fn position(&self, offset: u64) -> int {
        choose|j: int| 0 <= j < self@.len() && (#[trigger] self@[j]).computation_offset == offset
    }

    /// An empty table.
    pub fn new() -> (r: PendingTable)
        ensures
            r@ == Seq::<PendingComputation>::empty(),
            r.wf(),
    {
        PendingTable { entries: Vec::new() }
    }

    /// Number of queued computations.
    pub fn len(&self) -> (r: usize)
        ensures
            r == self@.len(),
    {
        self.entries.len()
    }

    /// Where the entry holding `offset` stands, if any.
    pub fn find(&self, offset: u64) -> (r: Option<usize>)
        requires
            self.wf(),
        ensures
            r is None <==> !self.holds(offset),
            r matches Some(j) ==> j == self.position(offset) && j < self@.len()
                && self@[j as int].computation_offset == offset,
    {
        let mut i: usize = 0;
        while i < self.entries.len()
            invariant
                i <= self@.len(),
                self@ == self.entries@,
                self.wf(),
                forall|j: int| 0 <= j < i ==> (#[trigger] self@[j]).computation_offset != offset,
            decreases self@.len() - i,
        {
            if self.entries[i].computation_offset == offset {
                assert(self.holds(offset));
                let ghost p = self.position(offset);
                proof {
                    assert(0 <= p < self@.len() && self@[p].computation_offset == offset);
                    if p < i as int {
                        assert(self@[p].computation_offset != self@[i as int].computation_offset);
                    } else if p > i as int {
                        assert(self@[i as int].computation_offset != self@[p].computation_offset);
                    }
                }
                return Some(i);
            }
            i = i + 1;
        }
        None
    }

    /// Whether a computation under `offset` awaits delivery.
    pub fn is_pending(&self, offset: u64) -> (r: bool)
        requires
            self.wf(),
        ensures
            r == self.holds(offset),
    {
        self.find(offset).is_some()
    }

    /// Records a queued computation, unless its correlation id is taken.
    pub fn enqueue(&mut self, entry: PendingComputation) -> (r: Result<(), GameError>)
        requires
            old(self).wf(),
        ensures
            final(self).wf(),
            old(self).holds(entry.computation_offset) ==> r == Err::<(), GameError>(GameError::DuplicateComputation)
                && final(self)@ == old(self)@,
            !old(self).holds(entry.computation_offset) ==> r is Ok && final(self)@ == old(self)@.push(entry),
    {
        if self.is_pending(entry.computation_offset) {
            return Err(GameError::DuplicateComputation);
        }
        self.entries.push(entry);
        proof {
            assert forall|i: int, j: int| 0 <= i < j < self@.len() implies (#[trigger] self@[i]).computation_offset
                != (#[trigger] self@[j]).computation_offset by {
                if j == self@.len() - 1 {
                    assert(old(self)@[i] == self@[i]);
                }
            }
        }
        Ok(())
    }

    /// Takes out the computation of kind `kind` under `offset`, so that it
    /// has exactly one outcome. Anything else leaves the table as it was.
    pub fn complete(&mut self, offset: u64, kind: ComputationKind) -> (r: Result<PendingComputation, GameError>)
        requires
            old(self).wf(),
        ensures
            final(self).wf(),
            (old(self).holds(offset) && old(self)@[old(self).position(offset)].kind == kind) ==> {
                &&& r == Ok::<PendingComputation, GameError>(old(self)@[old(self).position(offset)])
                &&& final(self)@ == old(self)@.remove(old(self).position(offset))
                &&& !final(self).holds(offset)
            },
            !(old(self).holds(offset) && old(self)@[old(self).position(offset)].kind == kind) ==> {
                &&& r == Err::<PendingComputation, GameError>(GameError::UnknownComputation)
                &&& final(self)@ == old(self)@
            },
    {
        let j = match self.find(offset) {
            Some(j) => j,
            None => return Err(GameError::UnknownComputation),
        };
        if self.entries[j].kind != kind {
            return Err(GameError::UnknownComputation);
        }
        let ghost before = self@;
        let e = self.entries.remove(j);
        proof {
            assert forall|a: int, b: int| 0 <= a < b < self@.len() implies (#[trigger] self@[a]).computation_offset
                != (#[trigger] self@[b]).computation_offset by {
                let a0 = if a < j { a } else { a + 1 };
                let b0 = if b < j { b } else { b + 1 };
                assert(self@[a] == before[a0]);
                assert(self@[b] == before[b0]);
            }
            if self.holds(offset) {
                let k = choose|k: int| 0 <= k < self@.len() && (#[trigger] self@[k]).computation_offset == offset;
                let k0 = if k < j { k } else { k + 1 };
                assert(self@[k] == before[k0]);
                assert(before[j as int].computation_offset == offset);
            }
        }
        Ok(e)
    }
}

/// Emitted when a session is created.
#[derive(Clone, Copy, Debug, PartialEq, Eq)]
pub struct GameCreated {
    pub game: AccountKey,
    pub authority: AccountKey,
    pub timestamp: i64,
}

/// Emitted when a participant joins.
#[derive(Clone, Copy, Debug, PartialEq, Eq)]
pub struct PlayerRegistered {
    pub game: AccountKey,
    pub player: AccountKey,
    pub timestamp: i64,
}

/// Emitted when an action is requested: its kind, never its content.
#[derive(Clone, Copy, Debug, PartialEq, Eq)]
pub struct ActionPerformed {
    pub game: AccountKey,
    pub player: AccountKey,
    pub action_type: ActionType,
    pub timestamp: i64,
}

/// Carries an inspection's result, sealed to the participant.
#[derive(Clone, Debug, PartialEq, Eq)]
pub struct ExploreResultEvent {
    pub game: AccountKey,
    pub player: AccountKey,
    pub encrypted_result: Vec<u8>,
}

/// Carries an extraction's result, sealed to the participant.
#[derive(Clone, Debug, PartialEq, Eq)]
pub struct DigResultEvent {
    pub game: AccountKey,
    pub player: AccountKey,
    pub encrypted_result: Vec<u8>,
}

/// Carries a move's result, sealed to the participant.
#[derive(Clone, Debug, PartialEq, Eq)]
pub struct MoveResultEvent {
    pub game: AccountKey,
    pub player: AccountKey,
    pub encrypted_result: Vec<u8>,
}

/// Carries a deposit's result, sealed to the depositor. It names no
/// participant, so nothing public ties a deposit to who made it.
#[derive(Clone, Debug, PartialEq, Eq)]
pub struct BuryResultEvent {
    pub game: AccountKey,
    pub encrypted_result: Vec<u8>,
}

/// The bytes of a 32-byte array as a vector.
fn bytes_of(a: &[u8; 32]) -> (r: Vec<u8>)
    ensures
        r@ == a@,
{
    let mut v: Vec<u8> = Vec::new();
    let mut i: usize = 0;
    while i < 32
        invariant
            i <= 32,
            v@ == a@.subrange(0, i as int),
        decreases 32 - i,
    {
        v.push(a[i]);
        i = i + 1;
        assert(v@ =~= a@.subrange(0, i as int));
    }
    assert(a@.subrange(0, 32) =~= a@);
    v
}

/// The arguments of a call sealed under the caller's key.
fn sealed_args(pub_key: [u8; 32], nonce: u128, ciphertext: &[u8; 32]) -> (r: Vec<Argument>)
    ensures
        sealed_call_args(r@, pub_key, nonce, *ciphertext),
{
    let mut args: Vec<Argument> = Vec::new();
    args.push(Argument::ArcisPubkey(pub_key));
    args.push(Argument::PlaintextU128(nonce));
    args.push(Argument::Ciphertext(bytes_of(ciphertext)));
    args
}

/// Opens a session owned by `authority` and queues generation of its world
/// from the sealed seed.
pub fn create_game(
    pending: &mut PendingTable,
    game_key: AccountKey,
    authority: AccountKey,
    now: i64,
    computation_offset: u64,
    ciphertext_seed: [u8; 32],
    pub_key: [u8; 32],
    nonce: u128,
) -> (r: Result<(Game, QueuedComputation, GameCreated), GameError>)
    requires
        old(pending).wf(),
    ensures
        final(pending).wf(),
        old(pending).holds(computation_offset) ==> r == Err::<(Game, QueuedComputation, GameCreated), GameError>(
            GameError::DuplicateComputation,
        ) && final(pending)@ == old(pending)@,
        !old(pending).holds(computation_offset) ==> (r matches Ok((game, q, ev)) && {
            &&& game == (Game { authority, player_count: 0, created_at: now, is_active: true })
            &&& queued_as(q, ComputationKind::InitMap, computation_offset)
            &&& sealed_call_args(q.args@, pub_key, nonce, ciphertext_seed)
            &&& ev == (GameCreated { game: game_key, authority, timestamp: now })
            &&& final(pending)@ == old(pending)@.push(
                PendingComputation { computation_offset, kind: ComputationKind::InitMap, requester: authority },
            )
        }),
{
    let entry = PendingComputation { computation_offset, kind: ComputationKind::InitMap, requester: authority };
    pending.enqueue(entry)?;
    let game = Game { authority, player_count: 0, created_at: now, is_active: true };
    let q = QueuedComputation {
        comp_def_offset: ComputationKind::InitMap.offset(),
        computation_offset,
        args: sealed_args(pub_key, nonce, &ciphertext_seed),
    };
    Ok((game, q, GameCreated { game: game_key, authority, timestamp: now }))
}

/// Queues creation of the session's empty deposit layer.
pub fn init_buried(pending: &mut PendingTable, authority: AccountKey, computation_offset: u64) -> (r: Result<
    QueuedComputation,
    GameError,
>)
    requires
        old(pending).wf(),
    ensures
        final(pending).wf(),
        old(pending).holds(computation_offset) ==> r == Err::<QueuedComputation, GameError>(
            GameError::DuplicateComputation,
        ) && final(pending)@ == old(pending)@,
        !old(pending).holds(computation_offset) ==> (r matches Ok(q) && {
            &&& queued_as(q, ComputationKind::InitBuriedLayer, computation_offset)
            &&& q.args@.len() == 0
            &&& final(pending)@ == old(pending)@.push(
                PendingComputation { computation_offset, kind: ComputationKind::InitBuriedLayer, requester: authority },
            )
        }),
{
    let entry = PendingComputation { computation_offset, kind: ComputationKind::InitBuriedLayer, requester: authority };
    pending.enqueue(entry)?;
    Ok(QueuedComputation {
        comp_def_offset: ComputationKind::InitBuriedLayer.offset(),
        computation_offset,
        args: Vec::new(),
    })
}

/// Adds a participant to the session: a public record with zeroed counters,
/// one more in the session's count, and a queued computation of the
/// participant's sealed starting state.
pub fn register_player(
    pending: &mut PendingTable,
    game: &mut Game,
    game_key: AccountKey,
    player: AccountKey,
    now: i64,
    computation_offset: u64,
) -> (r: Result<(PlayerAccount, QueuedComputation, PlayerRegistered), GameError>)
    requires
        old(pending).wf(),
    ensures
        final(pending).wf(),
        old(pending).holds(computation_offset) ==> r == Err::<(PlayerAccount, QueuedComputation, PlayerRegistered), GameError>(
            GameError::DuplicateComputation,
        ) && final(pending)@ == old(pending)@ && *final(game) == *old(game),
        !old(pending).holds(computation_offset) && old(game).player_count == u32::MAX ==> r
            == Err::<(PlayerAccount, QueuedComputation, PlayerRegistered), GameError>(GameError::CounterOverflow)
            && final(pending)@ == old(pending)@ && *final(game) == *old(game),
        !old(pending).holds(computation_offset) && old(game).player_count < u32::MAX ==> (r matches Ok((acct, q, ev)) && {
            &&& acct == (PlayerAccount {
                wallet: player,
                game: game_key,
                joined_at: now,
                tiles_explored: 0,
                treasures_found: 0,
                traps_triggered: 0,
            })
            &&& *final(game) == (Game { player_count: (old(game).player_count + 1) as u32, ..*old(game) })
            &&& queued_as(q, ComputationKind::RegisterPlayer, computation_offset)
            &&& q.args@.len() == 0
            &&& ev == (PlayerRegistered { game: game_key, player, timestamp: now })
            &&& final(pending)@ == old(pending)@.push(
                PendingComputation { computation_offset, kind: ComputationKind::RegisterPlayer, requester: player },
            )
        }),
{
    if pending.is_pending(computation_offset) {
        return Err(GameError::DuplicateComputation);
    }
    if game.player_count == u32::MAX {
        return Err(GameError::CounterOverflow);
    }
    let entry = PendingComputation { computation_offset, kind: ComputationKind::RegisterPlayer, requester: player };
    pending.enqueue(entry)?;
    game.player_count = game.player_count + 1;
    let acct = PlayerAccount {
        wallet: player,
        game: game_key,
        joined_at: now,
        tiles_explored: 0,
        treasures_found: 0,
        traps_triggered: 0,
    };
    let q = QueuedComputation {
        comp_def_offset: ComputationKind::RegisterPlayer.offset(),
        computation_offset,
        args: Vec::new(),
    };
    Ok((acct, q, PlayerRegistered { game: game_key, player, timestamp: now }))
}

/// The signer owns the participant record, which belongs to this session.
pub open spec fn owns(player_account: PlayerAccount, game_key: AccountKey, signer: AccountKey) -> bool {
    player_account.wallet.bytes@ == signer.bytes@ && player_account.game.bytes@ == game_key.bytes@
}

/// Which error, if any, a request for an action meets, in the order checked.
pub open spec fn action_rejection(
    pending: PendingTable,
    game: Game,
    game_key: AccountKey,
    player_account: PlayerAccount,
    signer: AccountKey,
    computation_offset: u64,
) -> Option<GameError> {
    if !game.is_active {
        Some(GameError::GameNotActive)
    } else if !owns(player_account, game_key, signer) {
        Some(GameError::Unauthorized)
    } else if pending.holds(computation_offset) {
        Some(GameError::DuplicateComputation)
    } else {
        None
    }
}

/// What a request for an action of kind `k` does: reject with
/// `action_rejection` and change nothing, or queue the sealed call.
pub open spec fn action_queued(
    old_pending: PendingTable,
    new_pending: PendingTable,
    k: ComputationKind,
    game: Game,
    game_key: AccountKey,
    player_account: PlayerAccount,
    signer: AccountKey,
    computation_offset: u64,
    ciphertext_input: [u8; 32],
    pub_key: [u8; 32],
    nonce: u128,
    r: Result<QueuedComputation, GameError>,
) -> bool {
    match action_rejection(old_pending, game, game_key, player_account, signer, computation_offset) {
        Some(e) => r == Err::<QueuedComputation, GameError>(e) && new_pending@ == old_pending@,
        None => r matches Ok(q) && {
            &&& queued_as(q, k, computation_offset)
            &&& sealed_call_args(q.args@, pub_key, nonce, ciphertext_input)
            &&& new_pending@ == old_pending@.push(
                PendingComputation { computation_offset, kind: k, requester: signer },
            )
        },
    }
}

/// Checks a request for an action and queues its sealed call.
fn queue_action(
    pending: &mut PendingTable,
    k: ComputationKind,
    game: &Game,
    game_key: AccountKey,
    player_account: &PlayerAccount,
    signer: AccountKey,
    computation_offset: u64,
    ciphertext_input: [u8; 32],
    pub_key: [u8; 32],
    nonce: u128,
) -> (r: Result<QueuedComputation, GameError>)
    requires
        old(pending).wf(),
    ensures
        final(pending).wf(),
        action_queued(*old(pending), *final(pending), k, *game, game_key, *player_account, signer,
            computation_offset, ciphertext_input, pub_key, nonce, r),
{
    if !game.is_active {
        return Err(GameError::GameNotActive);
    }
    if !(player_account.wallet.same_as(&signer) && player_account.game.same_as(&game_key)) {
        return Err(GameError::Unauthorized);
    }
    let entry = PendingComputation { computation_offset, kind: k, requester: signer };
    pending.enqueue(entry)?;
    Ok(QueuedComputation {
        comp_def_offset: k.offset(),
        computation_offset,
        args: sealed_args(pub_key, nonce, &ciphertext_input),
    })
}

/// Requests a move; the target travels sealed.
pub fn move_player(
    pending: &mut PendingTable,
    game: &Game,
    game_key: AccountKey,
    player_account: &PlayerAccount,
    signer: AccountKey,
    computation_offset: u64,
    ciphertext_input: [u8; 32],
    pub_key: [u8; 32],
    nonce: u128,
) -> (r: Result<QueuedComputation, GameError>)
    requires
        old(pending).wf(),
    ensures
        final(pending).wf(),
        action_queued(*old(pending), *final(pending), ComputationKind::MovePlayer, *game, game_key,
            *player_account, signer, computation_offset, ciphertext_input, pub_key, nonce, r),
{
    queue_action(pending, ComputationKind::MovePlayer, game, game_key, player_account, signer,
        computation_offset, ciphertext_input, pub_key, nonce)
}

/// Requests an inspection; the target travels sealed.
pub fn explore(
    pending: &mut PendingTable,
    game: &Game,
    game_key: AccountKey,
    player_account: &PlayerAccount,
    signer: AccountKey,
    computation_offset: u64,
    ciphertext_input: [u8; 32],
    pub_key: [u8; 32],
    nonce: u128,
) -> (r: Result<QueuedComputation, GameError>)
    requires
        old(pending).wf(),
    ensures
        final(pending).wf(),
        action_queued(*old(pending), *final(pending), ComputationKind::Explore, *game, game_key,
            *player_account, signer, computation_offset, ciphertext_input, pub_key, nonce, r),
{
    queue_action(pending, ComputationKind::Explore, game, game_key, player_account, signer,
        computation_offset, ciphertext_input, pub_key, nonce)
}

/// Requests a deposit; target and amount travel sealed, and the event says
/// only that a deposit was requested.
pub fn bury(
    pending: &mut PendingTable,
    game: &Game,
    game_key: AccountKey,
    player_account: &PlayerAccount,
    signer: AccountKey,
    now: i64,
    computation_offset: u64,
    ciphertext_input: [u8; 32],
    pub_key: [u8; 32],
    nonce: u128,
) -> (r: Result<(QueuedComputation, ActionPerformed), GameError>)
    requires
        old(pending).wf(),
    ensures
        final(pending).wf(),
        action_queued(*old(pending), *final(pending), ComputationKind::Bury, *game, game_key,
            *player_account, signer, computation_offset, ciphertext_input, pub_key, nonce,
            match r { Ok((q, _)) => Ok(q), Err(e) => Err(e) }),
        r matches Ok((_, ev)) ==> ev == (ActionPerformed {
            game: game_key,
            player: signer,
            action_type: ActionType::Bury,
            timestamp: now,
        }),
{
    let q = queue_action(pending, ComputationKind::Bury, game, game_key, player_account, signer,
        computation_offset, ciphertext_input, pub_key, nonce)?;
    Ok((q, ActionPerformed { game: game_key, player: signer, action_type: ActionType::Bury, timestamp: now }))
}

/// Requests an extraction; the target travels sealed.
pub fn dig(
    pending: &mut PendingTable,
    game: &Game,
    game_key: AccountKey,
    player_account: &PlayerAccount,
    signer: AccountKey,
    computation_offset: u64,
    ciphertext_input: [u8; 32],
    pub_key: [u8; 32],
    nonce: u128,
) -> (r: Result<QueuedComputation, GameError>)
    requires
        old(pending).wf(),
    ensures
        final(pending).wf(),
        action_queued(*old(pending), *final(pending), ComputationKind::Dig, *game, game_key,
            *player_account, signer, computation_offset, ciphertext_input, pub_key, nonce, r),
{
    queue_action(pending, ComputationKind::Dig, game, game_key, player_account, signer,
        computation_offset, ciphertext_input, pub_key, nonce)
}

/// Which error, if any, a delivery for a computation of kind `k` meets, in
/// the order checked: it must match a queued computation of that kind, come
/// for the participant who queued it (when one is named), and find room in
/// the counter it bumps.
pub open spec fn delivery_rejection(
    pending: PendingTable,
    k: ComputationKind,
    computation_offset: u64,
    wallet: Option<AccountKey>,
    counter_full: bool,
) -> Option<GameError> {
    let e = pending@[pending.position(computation_offset)];
    if !(pending.holds(computation_offset) && e.kind == k) {
        Some(GameError::UnknownComputation)
    } else if wallet matches Some(w) && e.requester.bytes@ != w.bytes@ {
        Some(GameError::Unauthorized)
    } else if counter_full {
        Some(GameError::CounterOverflow)
    } else {
        None
    }
}

/// What a delivery does to the table: reject and change nothing, or take out
/// the matching computation so that it has no second outcome.
pub open spec fn delivery_taken(
    old_pending: PendingTable,
    new_pending: PendingTable,
    k: ComputationKind,
    computation_offset: u64,
    wallet: Option<AccountKey>,
    counter_full: bool,
    r: Result<(), GameError>,
) -> bool {
    match delivery_rejection(old_pending, k, computation_offset, wallet, counter_full) {
        Some(e) => r == Err::<(), GameError>(e) && new_pending@ == old_pending@,
        None => {
            &&& r is Ok
            &&& new_pending@ == old_pending@.remove(old_pending.position(computation_offset))
            &&& !new_pending.holds(computation_offset)
        },
    }
}

/// Checks a delivery and takes its computation out of the table.
fn accept_delivery(
    pending: &mut PendingTable,
    k: ComputationKind,
    computation_offset: u64,
    wallet: Option<AccountKey>,
    counter_full: bool,
) -> (r: Result<(), GameError>)
    requires
        old(pending).wf(),
    ensures
        final(pending).wf(),
        delivery_taken(*old(pending), *final(pending), k, computation_offset, wallet, counter_full, r),
{
    let j = match pending.find(computation_offset) {
        Some(j) => j,
        None => return Err(GameError::UnknownComputation),
    };
    let e = pending.entries[j];
    if e.kind != k {
        return Err(GameError::UnknownComputation);
    }
    match wallet {
        Some(w) => {
            if !e.requester.same_as(&w) {
                return Err(GameError::Unauthorized);
            }
        },
        None => {},
    }
    if counter_full {
        return Err(GameError::CounterOverflow);
    }
    match pending.complete(computation_offset, k) {
        Ok(_) => Ok(()),
        Err(err) => Err(err),
    }
}

/// What a delivery that bumps the inspected-tiles counter leaves: on
/// success the counter is one higher and nothing else changes; on a
/// rejection the record is as it was.
pub open spec fn counted(before: PlayerAccount, after: PlayerAccount, ok: bool) -> bool {
    if ok {
        after == PlayerAccount { tiles_explored: (before.tiles_explored + 1) as u32, ..before }
    } else {
        after == before
    }
}

/// Absorbs an inspection's result: bumps the participant's public counter
/// and republishes the sealed result.
pub fn explore_callback(
    pending: &mut PendingTable,
    computation_offset: u64,
    game_key: AccountKey,
    player_account: &mut PlayerAccount,
    result: Vec<u8>,
) -> (r: Result<ExploreResultEvent, GameError>)
    requires
        old(pending).wf(),
    ensures
        final(pending).wf(),
        delivery_taken(*old(pending), *final(pending), ComputationKind::Explore, computation_offset,
            Some(old(player_account).wallet), old(player_account).tiles_explored == u32::MAX,
            match r { Ok(_) => Ok(()), Err(e) => Err(e) }),
        counted(*old(player_account), *final(player_account), r is Ok),
        r matches Ok(ev) ==> ev.game == game_key && ev.player == old(player_account).wallet
            && ev.encrypted_result@ == result@,
{
    let full = player_account.tiles_explored == u32::MAX;
    accept_delivery(pending, ComputationKind::Explore, computation_offset, Some(player_account.wallet), full)?;
    player_account.tiles_explored = player_account.tiles_explored + 1;
    Ok(ExploreResultEvent { game: game_key, player: player_account.wallet, encrypted_result: result })
}

/// Absorbs an extraction's result: bumps the participant's public counter
/// and republishes the sealed result.
pub fn dig_callback(
    pending: &mut PendingTable,
    computation_offset: u64,
    game_key: AccountKey,
    player_account: &mut PlayerAccount,
    result: Vec<u8>,
) -> (r: Result<DigResultEvent, GameError>)
    requires
        old(pending).wf(),
    ensures
        final(pending).wf(),
        delivery_taken(*old(pending), *final(pending), ComputationKind::Dig, computation_offset,
            Some(old(player_account).wallet), old(player_account).tiles_explored == u32::MAX,
            match r { Ok(_) => Ok(()), Err(e) => Err(e) }),
        counted(*old(player_account), *final(player_account), r is Ok),
        r matches Ok(ev) ==> ev.game == game_key && ev.player == old(player_account).wallet
            && ev.encrypted_result@ == result@,
{
    let full = player_account.tiles_explored == u32::MAX;
    accept_delivery(pending, ComputationKind::Dig, computation_offset, Some(player_account.wallet), full)?;
    player_account.tiles_explored = player_account.tiles_explored + 1;
    Ok(DigResultEvent { game: game_key, player: player_account.wallet, encrypted_result: result })
}

/// Absorbs a move's result: republishes it, with no public change.
pub fn move_callback(
    pending: &mut PendingTable,
    computation_offset: u64,
    game_key: AccountKey,
    player_account: &PlayerAccount,
    result: Vec<u8>,
) -> (r: Result<MoveResultEvent, GameError>)
    requires
        old(pending).wf(),
    ensures
        final(pending).wf(),
        delivery_taken(*old(pending), *final(pending), ComputationKind::MovePlayer, computation_offset,
            Some(player_account.wallet), false, match r { Ok(_) => Ok(()), Err(e) => Err(e) }),
        r matches Ok(ev) ==> ev.game == game_key && ev.player == player_account.wallet
            && ev.encrypted_result@ == result@,
{
    accept_delivery(pending, ComputationKind::MovePlayer, computation_offset, Some(player_account.wallet), false)?;
    Ok(MoveResultEvent { game: game_key, player: player_account.wallet, encrypted_result: result })
}

/// Absorbs a deposit's result: republishes it without naming anyone.
pub fn bury_callback(pending: &mut PendingTable, computation_offset: u64, game_key: AccountKey, result: Vec<u8>) -> (r: Result<
    BuryResultEvent,
    GameError,
>)
    requires
        old(pending).wf(),
    ensures
        final(pending).wf(),
        delivery_taken(*old(pending), *final(pending), ComputationKind::Bury, computation_offset, None, false,
            match r { Ok(_) => Ok(()), Err(e) => Err(e) }),
        r matches Ok(ev) ==> ev.game == game_key && ev.encrypted_result@ == result@,
{
    accept_delivery(pending, ComputationKind::Bury, computation_offset, None, false)?;
    Ok(BuryResultEvent { game: game_key, encrypted_result: result })
}

} // verus!
