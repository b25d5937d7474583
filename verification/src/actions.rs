//! The action protocol: input schemas, input submissions, pending actions,
//! ready actions, and the ledger of actions already resolved.
//!
//! A pending action advertises an input schema; a submission matching that
//! schema binds into a ready action; a ready action is a pure transformation
//! of one game snapshot into the next.

use crate::game::{Game, GameV};
use crate::player::{
    contains_name, index_of_name, lemma_index_of_name_unique, lemma_views_of_remove, names_of,
    unique_names, views_of, Player, Role,
};
use vstd::prelude::*;

verus! {

/// The recoverable protocol violations the engine reports.  None aborts the
/// process; the caller decides whether to re-prompt for input.
#[derive(Clone, Copy, PartialEq, Eq, Structural, Debug)]
pub enum GameError {
    /// `get_input_schema` or `submit_input` was called while nothing is left
    /// to resolve.
    NoPendingAction,
    /// A submission's shape does not match the schema advertised by the
    /// current pending action.
    SchemaMismatch,
    /// A submission names a player that is not in the current player set.
    InvalidTarget,
}

/// The shape of the input the caller must produce next.  The one current
/// schema asks for one of the enumerated player names, or an abstention.
pub enum InputSchema {
    ChooseTargetOrAbstain { candidates: Vec<String> },
}

impl View for InputSchema {
    /// The candidate target names the schema enumerates.
    type V = Seq<Seq<char>>;

    open spec fn view(&self) -> Seq<Seq<char>> {
        match self {
            InputSchema::ChooseTargetOrAbstain { candidates } => Seq::new(
                candidates@.len(),
                |i: int| candidates@[i]@,
            ),
        }
    }
}

/// The model of a choice of target: the targeted name, or `None` to abstain.
pub open spec fn opt_name_view(target: Option<String>) -> Option<Seq<char>> {
    match target {
        Some(t) => Some(t@),
        None => None,
    }
}

/// A concrete choice for the werewolf night action: eliminate the targeted
/// player, or abstain.
pub struct WerewolfNightActionSubmission {
    pub target: Option<String>,
}

impl View for WerewolfNightActionSubmission {
    /// The targeted name, or `None` for an abstention.
    type V = Option<Seq<char>>;

    open spec fn view(&self) -> Option<Seq<char>> {
        opt_name_view(self.target)
    }
}

impl Clone for WerewolfNightActionSubmission {
    fn clone(&self) -> (r: Self)
        ensures
            r@ == self@,
    {
        let target = self.target.clone();
        proof {
            if self.target is Some {
                assert(cloned::<String>(self.target.unwrap(), target.unwrap()));
            }
        }
        WerewolfNightActionSubmission { target }
    }
}

impl WerewolfNightActionSubmission {
    /// Builds a submission that targets the named player, or abstains.
    pub fn new(target: Option<String>) -> (s: Self)
        ensures
            s@ == opt_name_view(target),
    {
        WerewolfNightActionSubmission { target }
    }

    /// Binds this submission, on behalf of the given actor, into an action
    /// that is ready to apply.
    pub fn prepare_action(self, actor: String) -> (a: ReadyAction)
        ensures
            a@ == (ReadyV::WerewolfElimination { actor: actor@, target: self@ }),
    {
        ReadyAction::WerewolfElimination { actor, target: self.target }
    }
}

/// A concrete input value supplied by the caller, one variant per action
/// family.
pub enum InputSubmission {
    WerewolfNightAction(WerewolfNightActionSubmission),
}

impl View for InputSubmission {
    /// The targeted name, or `None` for an abstention.
    type V = Option<Seq<char>>;

    open spec fn view(&self) -> Option<Seq<char>> {
        match self {
            InputSubmission::WerewolfNightAction(sub) => sub@,
        }
    }
}

impl Clone for InputSubmission {
    fn clone(&self) -> (r: Self)
        ensures
            r@ == self@,
    {
        match self {
            InputSubmission::WerewolfNightAction(sub) => InputSubmission::WerewolfNightAction(
                sub.clone(),
            ),
        }
    }
}

/// The model of a pending action.
#[verifier::ext_equal]
pub ghost enum PendingV {
    WerewolfNight { actor: Seq<char> },
}

/// An action awaiting input: it knows which input shape it needs and how to
/// turn a matching submission into a ready action.
pub enum PendingAction {
    WerewolfNight { actor: String },
}

impl View for PendingAction {
    type V = PendingV;

    open spec fn view(&self) -> PendingV {
        match self {
            PendingAction::WerewolfNight { actor } => PendingV::WerewolfNight { actor: actor@ },
        }
    }
}

impl Clone for PendingAction {
    fn clone(&self) -> (r: Self)
        ensures
            r@ == self@,
    {
        match self {
            PendingAction::WerewolfNight { actor } => PendingAction::WerewolfNight {
                actor: actor.clone(),
            },
        }
    }
}

impl PendingAction {
    /// Describes the expected input shape: choose one of the current player
    /// names as target, or abstain.
    pub fn get_input_schema(&self, game: &Game) -> (s: InputSchema)
        ensures
            s@ == names_of(game@.players),
    {
        let n = game.players.len();
        let mut candidates: Vec<String> = Vec::new();
        let mut i: usize = 0;
        while i < n
            invariant
                n == game.players@.len(),
                i <= n,
                candidates@.len() == i,
                forall|k: int| 0 <= k < i ==> candidates@[k]@ == game@.players[k].name,
            decreases n - i,
        {
            candidates.push(game.players[i].name.clone());
            i += 1;
        }
        let s = InputSchema::ChooseTargetOrAbstain { candidates };
        proof {
            assert(s@ =~= names_of(game@.players));
        }
        s
    }

    /// Binds a submission to this action.  A submission whose shape does not
    /// match the advertised schema is rejected with
    /// [`GameError::SchemaMismatch`]; the only current submission shape
    /// matches the only current schema, so every submission binds.
    pub fn submit_input(&self, input: InputSubmission) -> (r: Result<ReadyAction, GameError>)
        ensures
            r matches Ok(a) && a@ == (ReadyV::WerewolfElimination {
                actor: self@->actor,
                target: input@,
            }),
    {
        match self {
            PendingAction::WerewolfNight { actor } => match input {
                InputSubmission::WerewolfNightAction(sub) => Ok(sub.prepare_action(actor.clone())),
            },
        }
    }
}

/// The model of a ready action.
#[verifier::ext_equal]
pub ghost enum ReadyV {
    WerewolfElimination { actor: Seq<char>, target: Option<Seq<char>> },
}

/// An action with input already bound: a pure function from the game state it
/// was computed against to the next game state.
pub enum ReadyAction {
    WerewolfElimination { actor: String, target: Option<String> },
}

impl View for ReadyAction {
    type V = ReadyV;

    open spec fn view(&self) -> ReadyV {
        match self {
            ReadyAction::WerewolfElimination { actor, target } => ReadyV::WerewolfElimination {
                actor: actor@,
                target: opt_name_view(*target),
            },
        }
    }
}

/// The model of a ledger entry: an actor whose role's night action has
/// resolved in the current phase.
#[verifier::ext_equal]
pub ghost struct ResolvedV {
    pub actor: Seq<char>,
    pub role: Role,
}

/// A ledger entry recording that the named player's role has already resolved
/// its night action in the current phase.
pub struct ResolvedAction {
    pub actor: String,
    pub role: Role,
}

impl View for ResolvedAction {
    type V = ResolvedV;

    open spec fn view(&self) -> ResolvedV {
        ResolvedV { actor: self.actor@, role: self.role }
    }
}

impl Clone for ResolvedAction {
    fn clone(&self) -> (r: Self)
        ensures
            r@ == self@,
    {
        ResolvedAction { actor: self.actor.clone(), role: self.role }
    }
}

/// The models of the ledger entries, in order of resolution.
pub open spec fn resolved_views(resolved: Seq<ResolvedAction>) -> Seq<ResolvedV> {
    Seq::new(resolved.len(), |i: int| resolved[i]@)
}

/// The ledger records that the named actor's role has already resolved.
pub open spec fn resolved_contains(resolved: Seq<ResolvedV>, actor: Seq<char>, role: Role) -> bool {
    exists|m: int| 0 <= m < resolved.len() && resolved[m].actor == actor && resolved[m].role == role
}

/// Reports whether the ledger records the named actor's role as resolved.
pub(crate) fn is_resolved(resolved: &Vec<ResolvedAction>, name: &String, role: Role) -> (b: bool)
    ensures
        b == resolved_contains(resolved_views(resolved@), name@, role),
{
    let n = resolved.len();
    let mut m: usize = 0;
    while m < n
        invariant
            n == resolved@.len(),
            m <= n,
            forall|k: int|
                0 <= k < m ==> !(resolved_views(resolved@)[k].actor == name@ && resolved_views(
                    resolved@,
                )[k].role == role),
        decreases n - m,
    {
        if resolved[m].actor == *name && resolved[m].role == role {
            proof {
                assert(resolved_contains(resolved_views(resolved@), name@, role)) by {
                    assert(resolved_views(resolved@)[m as int].actor == name@);
                }
            }
            return true;
        }
        m += 1;
    }
    proof {
        assert(!resolved_contains(resolved_views(resolved@), name@, role)) by {
            if resolved_contains(resolved_views(resolved@), name@, role) {
                let k = choose|k: int|
                    0 <= k < resolved_views(resolved@).len() && resolved_views(resolved@)[k].actor
                        == name@ && resolved_views(resolved@)[k].role == role;
                assert(!(resolved_views(resolved@)[k].actor == name@ && resolved_views(
                    resolved@,
                )[k].role == role));
            }
        }
    }
    false
}

/// Copies a roster; the copy models the same sequence of players.
pub(crate) fn clone_players(players: &Vec<Player>) -> (v: Vec<Player>)
    ensures
        views_of(v@) == views_of(players@),
{
    let v = players.clone();
    proof {
        assert forall|i: int| 0 <= i < v@.len() implies v@[i]@ == players@[i]@ by {
            assert(cloned::<Player>(players@[i], v@[i]));
        }
        assert(views_of(v@) =~= views_of(players@));
    }
    v
}

/// Copies a ledger; the copy models the same sequence of entries.
pub(crate) fn clone_resolved(resolved: &Vec<ResolvedAction>) -> (v: Vec<ResolvedAction>)
    ensures
        resolved_views(v@) == resolved_views(resolved@),
{
    let v = resolved.clone();
    proof {
        assert forall|i: int| 0 <= i < v@.len() implies v@[i]@ == resolved@[i]@ by {
            assert(cloned::<ResolvedAction>(resolved@[i], v@[i]));
        }
        assert(resolved_views(v@) =~= resolved_views(resolved@));
    }
    v
}

/// Copies a ledger and appends the record that the named actor's role has
/// resolved.
pub(crate) fn push_resolved(resolved: &Vec<ResolvedAction>, actor: &String, role: Role) -> (v: Vec<
    ResolvedAction,
>)
    ensures
        resolved_views(v@) == resolved_views(resolved@).push(
            ResolvedV { actor: actor@, role },
        ),
{
    let mut v = clone_resolved(resolved);
    let ghost before = resolved_views(v@);
    v.push(ResolvedAction { actor: actor.clone(), role });
    proof {
        assert(resolved_views(v@) =~= before.push(ResolvedV { actor: actor@, role }));
    }
    v
}

/// Finds the index of the player with the given name, if one exists.
pub(crate) fn find_index_by_name(players: &Vec<Player>, name: &String) -> (r: Option<usize>)
    requires
        unique_names(views_of(players@)),
    ensures
        match r {
            Some(i) => {
                &&& (i as int) < views_of(players@).len()
                &&& views_of(players@)[i as int].name == name@
                &&& contains_name(views_of(players@), name@)
                &&& i as int == index_of_name(views_of(players@), name@)
            },
            None => !contains_name(views_of(players@), name@),
        },
{
    let n = players.len();
    let mut i: usize = 0;
    while i < n
        invariant
            n == players@.len(),
            i <= n,
            unique_names(views_of(players@)),
            forall|k: int| 0 <= k < i ==> views_of(players@)[k].name != name@,
        decreases n - i,
    {
        if players[i].name == *name {
            proof {
                assert(contains_name(views_of(players@), name@)) by {
                    assert(views_of(players@)[i as int].name == name@);
                }
                lemma_index_of_name_unique(views_of(players@), name@, i as int);
            }
            return Some(i);
        }
        i += 1;
    }
    proof {
        assert(!contains_name(views_of(players@), name@)) by {
            if contains_name(views_of(players@), name@) {
                let k = choose|k: int|
                    0 <= k < views_of(players@).len() && views_of(players@)[k].name == name@;
                assert(views_of(players@)[k].name != name@);
            }
        }
    }
    None
}

impl ReadyAction {
    /// Applies this action to the game it was computed against: an
    /// abstention leaves the player sequence unchanged; a
    /// targeted elimination removes exactly the targeted player, preserving
    /// the relative order of the others, and is rejected with
    /// [`GameError::InvalidTarget`] when no current player carries the
    /// targeted name.  Either way the resolution is recorded in the ledger.
    /// The next pending action of the returned game is recomputed by the
    /// caller, `Game::submit_input`.
    pub fn transform(&self, game: &Game) -> (r: Result<Game, GameError>)
        requires
            unique_names(game@.players),
        ensures
            self@ matches ReadyV::WerewolfElimination { actor, target } ==> match target {
                None => r matches Ok(g) && g@ == (GameV {
                    players: game@.players,
                    resolved: game@.resolved.push(ResolvedV { actor, role: Role::Werewolf }),
                    pending: None,
                }),
                Some(t) => if contains_name(game@.players, t) {
                    r matches Ok(g) && g@ == (GameV {
                        players: game@.players.remove(index_of_name(game@.players, t)),
                        resolved: game@.resolved.push(ResolvedV { actor, role: Role::Werewolf }),
                        pending: None,
                    })
                } else {
                    r == Err::<Game, GameError>(GameError::InvalidTarget)
                },
            },
    {
        match self {
            ReadyAction::WerewolfElimination { actor, target } => match target {
                None => Ok(
                    Game {
                        players: clone_players(&game.players),
                        resolved: push_resolved(&game.resolved, actor, Role::Werewolf),
                        pending_action: None,
                    },
                ),
                Some(t) => match find_index_by_name(&game.players, t) {
                    Some(i) => {
                        let mut players = clone_players(&game.players);
                        let ghost before = players@;
                        players.remove(i);
                        proof {
                            lemma_views_of_remove(before, i as int);
                        }
                        Ok(
                            Game {
                                players,
                                resolved: push_resolved(&game.resolved, actor, Role::Werewolf),
                                pending_action: None,
                            },
                        )
                    },
                    None => Err(GameError::InvalidTarget),
                },
            },
        }
    }
}

} // verus!
