use werewolf_engine::actions::{
    GameError, InputSchema, InputSubmission, PendingAction, WerewolfNightActionSubmission,
};
use werewolf_engine::game::Game;
use werewolf_engine::history::{replay, submit_and_record};
use werewolf_engine::player::{distinct_names, Player, Role};

fn player(name: &str, roles: Vec<Role>) -> Player {
    Player { name: name.to_string(), roles }
}

fn names(game: &Game) -> Vec<String> {
    let mut out = Vec::new();
    for p in game.players.iter() {
        out.push(p.name.clone());
    }
    out
}

fn target(name: &str) -> InputSubmission {
    InputSubmission::WerewolfNightAction(WerewolfNightActionSubmission::new(Some(
        name.to_string(),
    )))
}

fn abstain() -> InputSubmission {
    InputSubmission::WerewolfNightAction(WerewolfNightActionSubmission::new(None))
}

fn pending_actor(game: &Game) -> Option<String> {
    match &game.pending_action {
        Some(PendingAction::WerewolfNight { actor }) => Some(actor.clone()),
        None => None,
    }
}

fn candidates(game: &Game) -> Vec<String> {
    match game.get_input_schema() {
        Ok(InputSchema::ChooseTargetOrAbstain { candidates }) => candidates,
        Err(e) => panic!("expected a schema, got {:?}", e),
    }
}

#[test]
fn werewolf_eliminates_target() {
    let roster = vec![player("A", vec![Role::Werewolf]), player("B", vec![])];
    assert!(distinct_names(&roster));
    let game = Game::initialize(roster);
    assert_eq!(pending_actor(&game), Some("A".to_string()));
    assert_eq!(candidates(&game), vec!["A".to_string(), "B".to_string()]);
    let next = match game.submit_input(target("B")) {
        Ok(g) => g,
        Err(e) => panic!("submission rejected: {:?}", e),
    };
    assert_eq!(names(&next), vec!["A".to_string()]);
    assert_eq!(pending_actor(&next), None);
    match next.get_input_schema() {
        Ok(_) => panic!("no action should be pending"),
        Err(e) => assert_eq!(e, GameError::NoPendingAction),
    }
}

#[test]
fn abstain_leaves_players_unchanged() {
    let roster = vec![player("A", vec![Role::Werewolf]), player("B", vec![])];
    let game = Game::initialize(roster);
    let next = match game.submit_input(abstain()) {
        Ok(g) => g,
        Err(e) => panic!("submission rejected: {:?}", e),
    };
    assert_eq!(names(&next), vec!["A".to_string(), "B".to_string()]);
    // The round trip preserves the entries themselves, roles included.
    assert_eq!(next.players[0].roles, vec![Role::Werewolf]);
    assert_eq!(next.players[1].roles, Vec::<Role>::new());
    assert_eq!(pending_actor(&next), None);
}

#[test]
fn invalid_target_is_rejected_and_game_unchanged() {
    let roster = vec![player("A", vec![Role::Werewolf]), player("B", vec![])];
    let game = Game::initialize(roster);
    let before = names(&game);
    match game.submit_input(target("C")) {
        Ok(_) => panic!("an unknown target must be rejected"),
        Err(e) => assert_eq!(e, GameError::InvalidTarget),
    }
    // The rejected submission consumed nothing: the same game still answers.
    assert_eq!(names(&game), before);
    assert_eq!(pending_actor(&game), Some("A".to_string()));
    let next = match game.submit_input(target("B")) {
        Ok(g) => g,
        Err(e) => panic!("submission rejected: {:?}", e),
    };
    assert_eq!(names(&next), vec!["A".to_string()]);
}

#[test]
fn no_pending_action_errors() {
    let game = Game::initialize(vec![player("A", vec![]), player("B", vec![])]);
    assert_eq!(pending_actor(&game), None);
    match game.get_input_schema() {
        Ok(_) => panic!("no action should be pending"),
        Err(e) => assert_eq!(e, GameError::NoPendingAction),
    }
    match game.submit_input(abstain()) {
        Ok(_) => panic!("submitting with nothing pending must fail"),
        Err(e) => assert_eq!(e, GameError::NoPendingAction),
    }
}

#[test]
fn empty_roster_starts_idle() {
    let game = Game::initialize(Vec::new());
    assert_eq!(pending_actor(&game), None);
    assert_eq!(names(&game), Vec::<String>::new());
}

#[test]
fn identity_uniqueness_preserved() {
    let roster = vec![
        player("A", vec![Role::Werewolf]),
        player("B", vec![Role::Werewolf]),
        player("C", vec![]),
    ];
    assert!(distinct_names(&roster));
    let game = Game::initialize(roster);
    assert!(distinct_names(&game.players));
    let game = game.submit_input(target("C")).map_err(|_| ()).unwrap();
    assert!(distinct_names(&game.players));
    let game = game.submit_input(target("A")).map_err(|_| ()).unwrap();
    assert!(distinct_names(&game.players));
    assert_eq!(names(&game), vec!["B".to_string()]);
}

#[test]
fn distinct_names_detects_duplicates() {
    let roster = vec![player("A", vec![Role::Werewolf]), player("A", vec![])];
    assert!(!distinct_names(&roster));
}

#[test]
fn two_werewolves_resolve_in_roster_order() {
    let roster = vec![
        player("A", vec![Role::Werewolf]),
        player("B", vec![Role::Werewolf]),
    ];
    let game = Game::initialize(roster);
    assert_eq!(pending_actor(&game), Some("A".to_string()));
    let game = game.submit_input(abstain()).map_err(|_| ()).unwrap();
    // A's action resolved; the selection is re-queried and B acts next.
    assert_eq!(pending_actor(&game), Some("B".to_string()));
    let game = game.submit_input(target("A")).map_err(|_| ()).unwrap();
    assert_eq!(names(&game), vec!["B".to_string()]);
    assert_eq!(pending_actor(&game), None);
}

#[test]
fn duplicate_role_resolves_once() {
    let roster = vec![player("A", vec![Role::Werewolf, Role::Werewolf])];
    let game = Game::initialize(roster);
    assert_eq!(pending_actor(&game), Some("A".to_string()));
    let game = game.submit_input(abstain()).map_err(|_| ()).unwrap();
    // The ledger records the (holder, role) pair, so a duplicate copy of the
    // same role does not act a second time.
    assert_eq!(pending_actor(&game), None);
}

#[test]
fn self_elimination_is_allowed() {
    let roster = vec![player("A", vec![Role::Werewolf]), player("B", vec![])];
    let game = Game::initialize(roster);
    let game = game.submit_input(target("A")).map_err(|_| ()).unwrap();
    assert_eq!(names(&game), vec!["B".to_string()]);
    assert_eq!(pending_actor(&game), None);
}

#[test]
fn later_actor_sees_earlier_elimination() {
    let roster = vec![
        player("A", vec![Role::Werewolf]),
        player("B", vec![Role::Werewolf]),
        player("C", vec![]),
    ];
    let game = Game::initialize(roster);
    let game = game.submit_input(target("B")).map_err(|_| ()).unwrap();
    // B was eliminated before acting, so nothing is pending for B; the
    // candidates a later schema would list shrink accordingly.
    assert_eq!(names(&game), vec!["A".to_string(), "C".to_string()]);
    assert_eq!(pending_actor(&game), None);
}

#[test]
fn submission_constructor_keeps_target() {
    let s = WerewolfNightActionSubmission::new(Some("X".to_string()));
    assert_eq!(s.target, Some("X".to_string()));
    let s = WerewolfNightActionSubmission::new(None);
    assert_eq!(s.target, None);
}

#[test]
fn werewolf_priority_is_zero() {
    assert_eq!(Role::Werewolf.priority(), 0);
}

#[test]
fn replay_is_deterministic() {
    let build = || {
        Game::initialize(vec![
            player("A", vec![Role::Werewolf]),
            player("B", vec![Role::Werewolf]),
            player("C", vec![]),
        ])
    };
    let inputs = vec![abstain(), target("C"), target("A")];
    let first = replay(&build(), &inputs);
    let second = replay(&build(), &inputs);
    assert_eq!(first.len(), 3);
    assert_eq!(second.len(), 3);
    for (a, b) in first.iter().zip(second.iter()) {
        assert_eq!(names(a), names(b));
        assert_eq!(pending_actor(a), pending_actor(b));
    }
    // After A abstained and B eliminated C, both werewolves have resolved:
    // the third submission found nothing pending and left the game as it was.
    assert_eq!(names(&first[1]), vec!["A".to_string(), "B".to_string()]);
    assert_eq!(names(&first[2]), vec!["A".to_string(), "B".to_string()]);
    assert_eq!(pending_actor(&first[2]), None);
}

#[test]
fn replay_keeps_game_on_rejected_submission() {
    let game = Game::initialize(vec![player("A", vec![Role::Werewolf]), player("B", vec![])]);
    let inputs = vec![target("Z"), target("B")];
    let snapshots = replay(&game, &inputs);
    assert_eq!(snapshots.len(), 2);
    // The rejected first submission left the game as it was.
    assert_eq!(names(&snapshots[0]), vec!["A".to_string(), "B".to_string()]);
    assert_eq!(pending_actor(&snapshots[0]), Some("A".to_string()));
    assert_eq!(names(&snapshots[1]), vec!["A".to_string()]);
}

#[test]
fn history_gains_one_entry_per_success() {
    let game = Game::initialize(vec![player("A", vec![Role::Werewolf]), player("B", vec![])]);
    let mut history: Vec<Game> = Vec::new();
    match submit_and_record(&game, target("Z"), &mut history) {
        Ok(_) => panic!("an unknown target must be rejected"),
        Err(e) => assert_eq!(e, GameError::InvalidTarget),
    }
    assert_eq!(history.len(), 0);
    let next = match submit_and_record(&game, target("B"), &mut history) {
        Ok(g) => g,
        Err(e) => panic!("submission rejected: {:?}", e),
    };
    assert_eq!(history.len(), 1);
    assert_eq!(names(&history[0]), vec!["A".to_string(), "B".to_string()]);
    let recorded = names(&history[0]);
    match submit_and_record(&next, abstain(), &mut history) {
        Ok(_) => panic!("nothing is pending after the elimination"),
        Err(e) => assert_eq!(e, GameError::NoPendingAction),
    }
    // A failed call appends nothing and never rewrites what was recorded.
    assert_eq!(history.len(), 1);
    assert_eq!(names(&history[0]), recorded);
}
