//! Players and the roles they hold.
//!
//! A player's identity is its name: the engine treats two players with equal
//! names as the same player, and a well-formed game never holds two players
//! with the same name.

use vstd::prelude::*;

verus! {

/// A character archetype.  A role is an immutable capability: it inspects the
/// current game and may contribute a night action for one of its holders.
///
/// The werewolf is the single night-action archetype: its holder chooses a
/// player to eliminate, or abstains.  Further roles are added as new variants.
#[derive(Clone, Copy, PartialEq, Eq, Structural, Debug)]
pub enum Role {
    Werewolf,
}

impl Role {
    /// Position of this role in the night resolution order; lower resolves
    /// first.  All current roles share one priority, so ties are broken by
    /// roster position (see `Game::get_next_action`).
    pub open spec fn spec_priority(self) -> u64 {
        match self {
            Role::Werewolf => 0,
        }
    }

    /// Executable counterpart of [`Role::spec_priority`].
    pub fn priority(&self) -> (p: u64)
        ensures
            p == self.spec_priority(),
    {
        match self {
            Role::Werewolf => 0,
        }
    }
}

/// The mathematical model of a player: its name as a character sequence and
/// the roles it holds, in order.
#[verifier::ext_equal]
pub ghost struct PlayerV {
    pub name: Seq<char>,
    pub roles: Seq<Role>,
}

/// A participant of the game.  Equality of players is equality of names.
#[derive(Debug)]
pub struct Player {
    pub name: String,
    pub roles: Vec<Role>,
}

impl View for Player {
    type V = PlayerV;

    open spec fn view(&self) -> PlayerV {
        PlayerV { name: self.name@, roles: self.roles@ }
    }
}

impl Clone for Player {
    fn clone(&self) -> (r: Self)
        ensures
            r@ == self@,
    {
        Player { name: self.name.clone(), roles: self.roles.clone() }
    }
}

impl PartialEq for Player {
    fn eq(&self, other: &Self) -> (r: bool) {
        self.name == other.name
    }
}

impl vstd::std_specs::cmp::PartialEqSpecImpl for Player {
    open spec fn obeys_eq_spec() -> bool {
        true
    }

    open spec fn eq_spec(&self, other: &Self) -> bool {
        self.name@ == other.name@
    }
}

/// The models of the players of a roster, in roster order.
pub open spec fn views_of(players: Seq<Player>) -> Seq<PlayerV> {
    Seq::new(players.len(), |i: int| players[i]@)
}

/// The names of a roster, in roster order.
pub open spec fn names_of(players: Seq<PlayerV>) -> Seq<Seq<char>> {
    Seq::new(players.len(), |i: int| players[i].name)
}

/// No two players of the roster share a name.
pub open spec fn unique_names(players: Seq<PlayerV>) -> bool {
    forall|i: int, j: int|
        0 <= i < j < players.len() ==> players[i].name != players[j].name
}

/// Some player of the roster has the given name.
pub open spec fn contains_name(players: Seq<PlayerV>, name: Seq<char>) -> bool {
    exists|i: int| 0 <= i < players.len() && players[i].name == name
}

/// The index of the player with the given name.  Under [`unique_names`] this
/// index is the only one, so it is uniquely determined.
pub open spec fn index_of_name(players: Seq<PlayerV>, name: Seq<char>) -> int {
    choose|i: int| 0 <= i < players.len() && players[i].name == name
}

/// Under [`unique_names`], any index whose player carries the given name is
/// the index that [`index_of_name`] denotes.
pub proof fn lemma_index_of_name_unique(players: Seq<PlayerV>, name: Seq<char>, i: int)
    requires
        unique_names(players),
        0 <= i < players.len(),
        players[i].name == name,
    ensures
        index_of_name(players, name) == i,
{
    let j = index_of_name(players, name);
    assert(0 <= j < players.len() && players[j].name == name);
    if i < j {
        assert(players[i].name != players[j].name);
    } else if j < i {
        assert(players[j].name != players[i].name);
    }
}

/// Removing a player keeps the remaining names pairwise distinct.
pub proof fn lemma_unique_names_remove(players: Seq<PlayerV>, i: int)
    requires
        unique_names(players),
        0 <= i < players.len(),
    ensures
        unique_names(players.remove(i)),
{
    players.remove_ensures(i);
    assert forall|p: int, q: int|
        0 <= p < q < players.remove(i).len() implies players.remove(i)[p].name != players.remove(
        i,
    )[q].name by {
        let p0 = if p < i {
            p
        } else {
            p + 1
        };
        let q0 = if q < i {
            q
        } else {
            q + 1
        };
        assert(players.remove(i)[p] == players[p0]);
        assert(players.remove(i)[q] == players[q0]);
        assert(players[p0].name != players[q0].name);
    }
}

/// Taking views commutes with removing a roster entry.
pub proof fn lemma_views_of_remove(players: Seq<Player>, i: int)
    requires
        0 <= i < players.len(),
    ensures
        views_of(players.remove(i)) == views_of(players).remove(i),
{
    players.remove_ensures(i);
    views_of(players).remove_ensures(i);
    assert(views_of(players.remove(i)) =~= views_of(players).remove(i));
}

/// Reports whether the names of the roster are pairwise distinct, the
/// precondition of `Game::initialize`.
pub fn distinct_names(players: &Vec<Player>) -> (b: bool)
    ensures
        b == unique_names(views_of(players@)),
{
    let n = players.len();
    let mut i: usize = 0;
    while i < n
        invariant
            n == players@.len(),
            i <= n,
            forall|p: int, q: int|
                0 <= p < q < i ==> views_of(players@)[p].name != views_of(players@)[q].name,
        decreases n - i,
    {
        let mut j: usize = 0;
        while j < i
            invariant
                n == players@.len(),
                j <= i < n,
            forall|q: int|
                0 <= q < j ==> views_of(players@)[q].name != views_of(players@)[i as int].name,
            decreases i - j,
        {
            if players[j].name == players[i].name {
                proof {
                    let vs = views_of(players@);
                    assert(vs[j as int].name == vs[i as int].name);
                    assert(!unique_names(vs)) by {
                        assert(0 <= j < i < vs.len());
                    }
                }
                return false;
            }
            j += 1;
        }
        i += 1;
    }
    true
}

} // verus!
