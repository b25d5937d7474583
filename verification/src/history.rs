//! Recording snapshots in the caller's append-only history ledger, and
//! replaying fixed sequences of submissions.
//!
//! History itself is owned by the caller: the engine never reads it.  The
//! helpers here show that one successful submission appends exactly one
//! snapshot, that appending never touches what was already recorded, and that
//! a replay is a function of the initial game and the submissions alone.

use crate::actions::{GameError, InputSubmission};
use crate::game::{result_view, spec_submit, Game, GameV};
use vstd::prelude::*;

verus! {

/// One step of the request/respond loop that also records the spent snapshot:
/// on success the pre-state game is appended to the caller's history — exactly
/// one new entry, every earlier entry untouched.  On an error nothing is
/// appended and the game is unchanged.
pub fn submit_and_record(game: &Game, input: InputSubmission, history: &mut Vec<Game>) -> (r:
    Result<Game, GameError>)
    requires
        game.wf(),
    ensures
        result_view(r) == spec_submit(game@, input@),
        r matches Ok(g) ==> g.wf(),
        r is Ok ==> {
            &&& final(history)@.len() == old(history)@.len() + 1
            &&& forall|i: int|
                0 <= i < old(history)@.len() ==> final(history)@[i] == old(history)@[i]
            &&& final(history)@[old(history)@.len() as int]@ == game@
        },
        r is Err ==> final(history)@ == old(history)@,
{
    match game.submit_input(input) {
        Ok(g) => {
            history.push(game.clone());
            Ok(g)
        },
        Err(e) => Err(e),
    }
}

/// History append-only: appending one snapshot grows the ledger by exactly
/// one entry, leaves every previously appended snapshot unchanged, and puts
/// the new snapshot last.
pub proof fn lemma_history_append_only(h1: Seq<GameV>, h2: Seq<GameV>, g: GameV)
    requires
        h2 == h1.push(g),
    ensures
        h2.len() == h1.len() + 1,
        forall|i: int| 0 <= i < h1.len() ==> h2[i] == h1[i],
        h2[h1.len() as int] == g,
{
}

/// The models of a sequence of snapshots.
pub open spec fn game_views(games: Seq<Game>) -> Seq<GameV> {
    Seq::new(games.len(), |i: int| games[i]@)
}

/// The models of a sequence of submissions.
pub open spec fn target_views(inputs: Seq<InputSubmission>) -> Seq<Option<Seq<char>>> {
    Seq::new(inputs.len(), |i: int| inputs[i]@)
}

/// The successive game models of a replay: each submission is applied in
/// turn; a rejected submission leaves the game as it was (the caller would
/// re-prompt for new input).  A function of the initial game's model and the
/// submitted targets alone: replaying the same submissions from the same game
/// always yields the same sequence of games.
pub open spec fn spec_replay(g: GameV, targets: Seq<Option<Seq<char>>>) -> Seq<GameV>
    decreases targets.len(),
{
    if targets.len() == 0 {
        Seq::empty()
    } else {
        let next = match spec_submit(g, targets[0]) {
            Ok(g2) => g2,
            Err(_) => g,
        };
        seq![next] + spec_replay(next, targets.drop_first())
    }
}

/// Determinism over a whole sequence: replaying submissions with the same
/// models from initial games with the same model yields the same sequence of
/// game models — there is no hidden randomness in the selection policy or in
/// the transformation.
pub proof fn lemma_replay_deterministic(
    g1: Game,
    g2: Game,
    inputs1: Seq<InputSubmission>,
    inputs2: Seq<InputSubmission>,
)
    requires
        g1@ == g2@,
        target_views(inputs1) == target_views(inputs2),
    ensures
        spec_replay(g1@, target_views(inputs1)) == spec_replay(g2@, target_views(inputs2)),
{
}

/// Replays a fixed sequence of submissions from a game, returning the
/// snapshot reached after each submission.  The result models exactly
/// [`spec_replay`] of the initial game and the submissions.
pub fn replay(initial: &Game, inputs: &Vec<InputSubmission>) -> (snapshots: Vec<Game>)
    requires
        initial.wf(),
    ensures
        snapshots@.len() == inputs@.len(),
        game_views(snapshots@) == spec_replay(initial@, target_views(inputs@)),
{
    let ghost targets = target_views(inputs@);
    let n = inputs.len();
    let mut snapshots: Vec<Game> = Vec::new();
    let mut cur = initial.clone();
    let mut i: usize = 0;
    proof {
        assert(targets.skip(0) =~= targets);
        assert(game_views(snapshots@) =~= Seq::<GameV>::empty());
        assert(Seq::<GameV>::empty() + spec_replay(cur@, targets) =~= spec_replay(cur@, targets));
    }
    while i < n
        invariant
            n == inputs@.len(),
            i <= n,
            targets == target_views(inputs@),
            cur.wf(),
            snapshots@.len() == i,
            game_views(snapshots@) + spec_replay(cur@, targets.skip(i as int)) == spec_replay(
                initial@,
                targets,
            ),
        decreases n - i,
    {
        let ghost prefix = game_views(snapshots@);
        let ghost rest = targets.skip(i as int);
        let ghost pre = cur@;
        let input = inputs[i].clone();
        let outcome = cur.submit_input(input);
        match outcome {
            Ok(g) => {
                cur = g;
            },
            Err(_) => {},
        }
        proof {
            assert(rest[0] == targets[i as int]);
            assert(rest.drop_first() =~= targets.skip(i as int + 1));
            assert(spec_replay(pre, rest) == seq![cur@] + spec_replay(
                cur@,
                targets.skip(i as int + 1),
            ));
        }
        snapshots.push(cur.clone());
        proof {
            assert(game_views(snapshots@) =~= prefix + seq![cur@]);
            assert(game_views(snapshots@) + spec_replay(cur@, targets.skip(i as int + 1)) =~= prefix
                + (seq![cur@] + spec_replay(cur@, targets.skip(i as int + 1))));
        }
        i += 1;
    }
    proof {
        assert(targets.skip(n as int) =~= Seq::<Option<Seq<char>>>::empty());
        assert(spec_replay(cur@, targets.skip(n as int)) =~= Seq::<GameV>::empty());
        assert(game_views(snapshots@) =~= game_views(snapshots@) + Seq::<GameV>::empty());
    }
    snapshots
}

} // verus!
