//! The game aggregate and its request/respond loop.
//!
//! A game snapshot is immutable once returned to the caller: submitting input
//! yields a distinct new snapshot, whose own next pending action is always
//! recomputed before it is handed back, so a returned game either carries a
//! concrete action to resolve or has confirmed that nothing is left.

use crate::actions::{
    clone_players, clone_resolved, is_resolved, resolved_contains, resolved_views, GameError,
    InputSchema, InputSubmission, PendingAction, PendingV, ResolvedAction, ResolvedV,
};
use crate::player::{
    contains_name, index_of_name, lemma_unique_names_remove, names_of, unique_names, views_of,
    Player, PlayerV, Role,
};
use vstd::prelude::*;

verus! {

/// The mathematical model of a game snapshot: the player models in roster
/// order, the ledger of resolved night actions, and the pending action.
#[verifier::ext_equal]
pub ghost struct GameV {
    pub players: Seq<PlayerV>,
    pub resolved: Seq<ResolvedV>,
    pub pending: Option<PendingV>,
}

/// One snapshot of a running game: the ordered roster, the ledger of night
/// actions already resolved in the current phase, and the action awaiting
/// input, if any.
pub struct Game {
    pub players: Vec<Player>,
    pub resolved: Vec<ResolvedAction>,
    pub pending_action: Option<PendingAction>,
}

/// The model of an optional pending action.
pub open spec fn pending_view(p: Option<PendingAction>) -> Option<PendingV> {
    match p {
        Some(a) => Some(a@),
        None => None,
    }
}

impl View for Game {
    type V = GameV;

    open spec fn view(&self) -> GameV {
        GameV {
            players: views_of(self.players@),
            resolved: resolved_views(self.resolved@),
            pending: pending_view(self.pending_action),
        }
    }
}

impl Clone for Game {
    fn clone(&self) -> (r: Self)
        ensures
            r@ == self@,
    {
        let pending_action = self.pending_action.clone();
        proof {
            if self.pending_action is Some {
                assert(cloned::<PendingAction>(
                    self.pending_action.unwrap(),
                    pending_action.unwrap(),
                ));
            }
        }
        Game {
            players: clone_players(&self.players),
            resolved: clone_resolved(&self.resolved),
            pending_action,
        }
    }
}

/// The given role owes a night action for the named holder.  The one current
/// role, the werewolf, contributes whenever the ledger does not yet record
/// its holder as resolved.
pub open spec fn role_contributes(role: Role, name: Seq<char>, resolved: Seq<ResolvedV>) -> bool {
    &&& role is Werewolf
    &&& !resolved_contains(resolved, name, role)
}

/// Some role of the player still owes a night action.
pub open spec fn player_contributes(p: PlayerV, resolved: Seq<ResolvedV>) -> bool {
    exists|k: int| 0 <= k < p.roles.len() && role_contributes(p.roles[k], p.name, resolved)
}

/// The pending action selected next, scanning the roster from index `i`.
///
/// All current roles share one priority ([`Role::spec_priority`]), so the
/// resolution order collapses to roster order: the first player holding a
/// role that still owes a night action acts next.  A role with a different
/// priority must extend this selection with a priority comparison.
pub open spec fn spec_next_actor_from(
    players: Seq<PlayerV>,
    resolved: Seq<ResolvedV>,
    i: int,
) -> Option<PendingV>
    decreases players.len() - i,
{
    if i < 0 || i >= players.len() {
        None
    } else if player_contributes(players[i], resolved) {
        Some(PendingV::WerewolfNight { actor: players[i].name })
    } else {
        spec_next_actor_from(players, resolved, i + 1)
    }
}

/// The pending action the selection policy chooses for the given roster and
/// ledger: a deterministic, total function of the game state.
pub open spec fn spec_next_actor(players: Seq<PlayerV>, resolved: Seq<ResolvedV>) -> Option<
    PendingV,
> {
    spec_next_actor_from(players, resolved, 0)
}

impl Role {
    /// Decides whether this role contributes a night action for `actor` in
    /// the given game, and if so returns the action awaiting input.
    pub fn get_night_action(&self, game: &Game, actor: &Player) -> (r: Option<PendingAction>)
        ensures
            pending_view(r) == (if role_contributes(*self, actor@.name, game@.resolved) {
                Some(PendingV::WerewolfNight { actor: actor@.name })
            } else {
                None::<PendingV>
            }),
    {
        match self {
            Role::Werewolf => {
                if is_resolved(&game.resolved, &actor.name, Role::Werewolf) {
                    None
                } else {
                    Some(PendingAction::WerewolfNight { actor: actor.name.clone() })
                }
            },
        }
    }
}

/// The game one step later: the given roster and ledger, with the next
/// pending action recomputed from them.
pub open spec fn spec_step(players: Seq<PlayerV>, resolved: Seq<ResolvedV>) -> GameV {
    GameV { players, resolved, pending: spec_next_actor(players, resolved) }
}

/// The functional specification of [`Game::submit_input`]: a function of the
/// pre-state model and the submitted target alone, so replaying the same
/// submissions from the same game always yields the same results.
pub open spec fn spec_submit(pre: GameV, target: Option<Seq<char>>) -> Result<GameV, GameError> {
    match pre.pending {
        None => Err(GameError::NoPendingAction),
        Some(p) => {
            let resolved = pre.resolved.push(ResolvedV { actor: p->actor, role: Role::Werewolf });
            match target {
                None => Ok(spec_step(pre.players, resolved)),
                Some(t) => if contains_name(pre.players, t) {
                    Ok(spec_step(pre.players.remove(index_of_name(pre.players, t)), resolved))
                } else {
                    Err(GameError::InvalidTarget)
                },
            }
        },
    }
}

/// The model of a submission's outcome.
pub open spec fn result_view(r: Result<Game, GameError>) -> Result<GameV, GameError> {
    match r {
        Ok(g) => Ok(g@),
        Err(e) => Err(e),
    }
}

impl Game {
    /// A game the engine has handed out: the player names are pairwise
    /// distinct, and the pending action is exactly what the selection policy
    /// chooses for the current roster and ledger — never left uncomputed.
    pub open spec fn wf(self) -> bool {
        &&& unique_names(self@.players)
        &&& self@.pending == spec_next_actor(self@.players, self@.resolved)
    }

    /// Constructs a game from a caller-supplied roster and immediately
    /// computes the first pending action.  If no role of the roster produces
    /// an action, the game starts idle, with no pending action.
    pub fn initialize(players: Vec<Player>) -> (g: Game)
        requires
            unique_names(views_of(players@)),
        ensures
            g.wf(),
            g@.players == views_of(players@),
            g@.resolved == Seq::<ResolvedV>::empty(),
    {
        let mut game = Game { players, resolved: Vec::new(), pending_action: None };
        let next = game.get_next_action();
        game.pending_action = next;
        proof {
            assert(resolved_views(game.resolved@) =~= Seq::<ResolvedV>::empty());
        }
        game
    }

    /// The action to resolve next for this game, if any: the selection policy
    /// of [`spec_next_actor`], querying every player's every role in roster
    /// order.
    pub fn get_next_action(&self) -> (r: Option<PendingAction>)
        ensures
            pending_view(r) == spec_next_actor(self@.players, self@.resolved),
    {
        let n = self.players.len();
        let mut i: usize = 0;
        while i < n
            invariant
                n == self.players@.len(),
                i <= n,
                spec_next_actor(self@.players, self@.resolved) == spec_next_actor_from(
                    self@.players,
                    self@.resolved,
                    i as int,
                ),
            decreases n - i,
        {
            let p = &self.players[i];
            let nr = p.roles.len();
            let mut k: usize = 0;
            while k < nr
                invariant
                    n == self.players@.len(),
                    i < n,
                    p == &self.players[i as int],
                    nr == p.roles@.len(),
                    k <= nr,
                    spec_next_actor(self@.players, self@.resolved) == spec_next_actor_from(
                        self@.players,
                        self@.resolved,
                        i as int,
                    ),
                    forall|t: int|
                        0 <= t < k ==> !role_contributes(p@.roles[t], p@.name, self@.resolved),
                decreases nr - k,
            {
                let role = p.roles[k];
                let candidate = role.get_night_action(self, p);
                if candidate.is_some() {
                    proof {
                        assert(player_contributes(self@.players[i as int], self@.resolved)) by {
                            assert(role_contributes(
                                self@.players[i as int].roles[k as int],
                                self@.players[i as int].name,
                                self@.resolved,
                            ));
                        }
                    }
                    return candidate;
                }
                k += 1;
            }
            proof {
                let pv = self@.players[i as int];
                assert(!player_contributes(pv, self@.resolved)) by {
                    if player_contributes(pv, self@.resolved) {
                        let t = choose|t: int|
                            0 <= t < pv.roles.len() && role_contributes(
                                pv.roles[t],
                                pv.name,
                                self@.resolved,
                            );
                        assert(!role_contributes(pv.roles[t], pv.name, self@.resolved));
                    }
                }
            }
            i += 1;
        }
        None
    }

    /// The currently pending action, or [`GameError::NoPendingAction`] when
    /// nothing is left to resolve.
    pub fn get_pending_action(&self) -> (r: Result<&PendingAction, GameError>)
        ensures
            match r {
                Ok(p) => self@.pending == Some(p@),
                Err(e) => e == GameError::NoPendingAction && self@.pending is None,
            },
    {
        match &self.pending_action {
            Some(p) => Ok(p),
            None => Err(GameError::NoPendingAction),
        }
    }

    /// The schema of the input needed for the currently pending action, or
    /// [`GameError::NoPendingAction`] when nothing is left to resolve.
    pub fn get_input_schema(&self) -> (r: Result<InputSchema, GameError>)
        ensures
            match r {
                Ok(s) => self@.pending is Some && s@ == names_of(self@.players),
                Err(e) => e == GameError::NoPendingAction && self@.pending is None,
            },
    {
        let pending = match self.get_pending_action() {
            Ok(p) => p,
            Err(e) => {
                return Err(e);
            },
        };
        Ok(pending.get_input_schema(self))
    }

    /// The sole state-transition entry point: delegates the submission to the
    /// pending action, applies the resulting ready action, and recomputes the
    /// new game's pending action before returning it.  The outcome is exactly
    /// [`spec_submit`] of this game's model and the submitted target; on an
    /// error this game is unchanged (it is not consumed), and the result is
    /// `Ok` precisely when an action is pending and the submission either
    /// abstains or targets a current player.
    pub fn submit_input(&self, input: InputSubmission) -> (r: Result<Game, GameError>)
        requires
            self.wf(),
        ensures
            result_view(r) == spec_submit(self@, input@),
            r matches Ok(g) ==> g.wf(),
            r is Ok <==> (self@.pending is Some && (input@ matches Some(t) ==> contains_name(
                self@.players,
                t,
            ))),
    {
        let pending = match self.get_pending_action() {
            Ok(p) => p,
            Err(e) => {
                return Err(e);
            },
        };
        let ready = match pending.submit_input(input) {
            Ok(a) => a,
            Err(e) => {
                return Err(e);
            },
        };
        let mut game = match ready.transform(self) {
            Ok(g) => g,
            Err(e) => {
                return Err(e);
            },
        };
        let next = game.get_next_action();
        game.pending_action = next;
        proof {
            match input@ {
                Some(t) => {
                    assert(contains_name(self@.players, t));
                    let i = index_of_name(self@.players, t);
                    assert(0 <= i < self@.players.len() && self@.players[i].name == t);
                    lemma_unique_names_remove(self@.players, i);
                },
                None => {},
            }
        }
        Ok(game)
    }
}

proof fn lemma_next_actor_from_complete(players: Seq<PlayerV>, resolved: Seq<ResolvedV>, i: int)
    requires
        0 <= i <= players.len(),
    ensures
        match spec_next_actor_from(players, resolved, i) {
            Some(p) => p matches PendingV::WerewolfNight { actor } && exists|j: int|
                i <= j < players.len() && players[j].name == actor && player_contributes(
                    players[j],
                    resolved,
                ),
            None => forall|j: int|
                i <= j < players.len() ==> !player_contributes(players[j], resolved),
        },
    decreases players.len() - i,
{
    if i < players.len() {
        if player_contributes(players[i], resolved) {
            assert(spec_next_actor_from(players, resolved, i) == Some(
                PendingV::WerewolfNight { actor: players[i].name },
            ));
        } else {
            lemma_next_actor_from_complete(players, resolved, i + 1);
        }
    }
}

/// Selection completeness: the selected pending action names a current player
/// who still owes a night action, and none is selected only when no player's
/// role owes one — an absent pending action always means the phase is
/// complete, never that the selection went uncomputed.
pub proof fn lemma_selection_complete(players: Seq<PlayerV>, resolved: Seq<ResolvedV>)
    ensures
        match spec_next_actor(players, resolved) {
            Some(p) => p matches PendingV::WerewolfNight { actor } && exists|j: int|
                0 <= j < players.len() && players[j].name == actor && player_contributes(
                    players[j],
                    resolved,
                ),
            None => forall|j: int|
                0 <= j < players.len() ==> !player_contributes(players[j], resolved),
        },
{
    lemma_next_actor_from_complete(players, resolved, 0);
}

/// Identity uniqueness: no two players of a well-formed game share a name.
pub proof fn lemma_identity_uniqueness(g: Game)
    requires
        g.wf(),
    ensures
        forall|i: int, j: int|
            0 <= i < j < g@.players.len() ==> g@.players[i].name != g@.players[j].name,
{
}

/// Abstain round-trip: submitting an abstention leaves the player sequence
/// identical, entry for entry and in order.
pub proof fn lemma_abstain_preserves_players(pre: GameV)
    requires
        pre.pending is Some,
    ensures
        spec_submit(pre, None::<Seq<char>>) matches Ok(g) && g.players == pre.players,
{
}

/// Elimination correctness: a submission targeting the name `t` of a current
/// player yields a game whose player sequence is the old one with exactly the
/// targeted player removed, all other players in their original relative
/// order.
pub proof fn lemma_elimination_removes_target(pre: GameV, t: Seq<char>)
    requires
        pre.pending is Some,
        contains_name(pre.players, t),
    ensures
        spec_submit(pre, Some(t)) matches Ok(g) && ({
            let i = index_of_name(pre.players, t);
            &&& 0 <= i < pre.players.len()
            &&& pre.players[i].name == t
            &&& g.players == pre.players.remove(i)
            &&& g.players.len() == pre.players.len() - 1
            &&& forall|k: int| 0 <= k < i ==> g.players[k] == pre.players[k]
            &&& forall|k: int| i <= k < g.players.len() ==> g.players[k] == pre.players[k + 1]
        }),
{
    let i = index_of_name(pre.players, t);
    assert(0 <= i < pre.players.len() && pre.players[i].name == t);
    pre.players.remove_ensures(i);
}

/// Invalid target rejected: a submission targeting a name that no current
/// player carries is answered with [`GameError::InvalidTarget`]; the game the
/// caller holds is not consumed, so it is unchanged.
pub proof fn lemma_invalid_target_rejected(pre: GameV, t: Seq<char>)
    requires
        pre.pending is Some,
        !contains_name(pre.players, t),
    ensures
        spec_submit(pre, Some(t)) == Err::<GameV, GameError>(GameError::InvalidTarget),
{
}

/// Schema compatibility: while an action is pending, a submission that
/// targets any of the candidate names the advertised schema enumerates — or
/// abstains — is never rejected.
pub proof fn lemma_schema_targets_accepted(pre: GameV, target: Option<Seq<char>>)
    requires
        pre.pending is Some,
        target matches Some(t) ==> names_of(pre.players).contains(t),
    ensures
        spec_submit(pre, target) is Ok,
{
    match target {
        Some(t) => {
            let i = choose|i: int| 0 <= i < names_of(pre.players).len() && names_of(pre.players)[i]
                == t;
            assert(contains_name(pre.players, t)) by {
                assert(pre.players[i].name == t);
            }
        },
        None => {},
    }
}

/// Determinism: two submissions with the same model, applied to the same
/// game, yield outcomes with the same model — the outcome is a function of
/// the game's model and the submitted target alone.
pub proof fn lemma_submit_deterministic(
    pre: Game,
    input1: InputSubmission,
    input2: InputSubmission,
    r1: Result<Game, GameError>,
    r2: Result<Game, GameError>,
)
    requires
        input1@ == input2@,
        result_view(r1) == spec_submit(pre@, input1@),
        result_view(r2) == spec_submit(pre@, input2@),
    ensures
        result_view(r1) == result_view(r2),
{
}

} // verus!
