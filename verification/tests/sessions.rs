use duel_engine::config::Config;
use duel_engine::dispatch::handle;
use duel_engine::dispatch::ActionTag;
use duel_engine::dispatch::InteractionEvent;
use duel_engine::duel::invite;
use duel_engine::duel::Phase;
use duel_engine::duel::Rejection;
use duel_engine::duel::RenderInstruction;
use duel_engine::duel::Scene;
use duel_engine::duel::INITIAL_HP;
use duel_engine::store::SessionStore;

fn seeded_store(key: u64, challenger: u64, opponent: u64) -> SessionStore {
    let mut store = SessionStore::new();
    let (state, _) = invite(challenger, opponent, true).unwrap();
    assert!(store.insert(key, state));
    store
}

fn event(key: u64, actor: u64, tag: ActionTag) -> InteractionEvent {
    InteractionEvent {
        session_key: key,
        actor,
        tag,
    }
}

#[test]
fn store_get_reads_back_what_insert_stored() {
    let store = seeded_store(11, 1, 2);
    let s = store.get(11).unwrap();
    assert_eq!(s.player_a, 1);
    assert_eq!(s.player_b, 2);
    assert_eq!(s.hp_a, INITIAL_HP);
    assert_eq!(s.phase, Phase::AwaitingAcceptance);
    assert!(store.get(12).is_none());
    assert_eq!(store.len(), 1);
}

#[test]
fn store_insert_fails_on_a_taken_key() {
    let mut store = seeded_store(11, 1, 2);
    let (other, _) = invite(3, 4, true).unwrap();
    assert!(!store.insert(11, other));
    let s = store.get(11).unwrap();
    assert_eq!(s.player_a, 1, "a failed insert changes nothing");
    assert_eq!(store.len(), 1);
}

#[test]
fn store_replace_fails_on_an_absent_key() {
    let mut store = SessionStore::new();
    let (state, _) = invite(1, 2, true).unwrap();
    assert!(!store.replace(11, state));
    assert!(store.get(11).is_none());
    assert_eq!(store.len(), 0);
}

#[test]
fn store_remove_drops_only_the_named_key() {
    let mut store = seeded_store(11, 1, 2);
    let (other, _) = invite(3, 4, true).unwrap();
    assert!(store.insert(12, other));
    store.remove(11);
    assert!(store.get(11).is_none());
    assert!(store.get(12).is_some());
    assert_eq!(store.len(), 1);
}

#[test]
fn handle_ignores_an_absent_session() {
    let mut store = seeded_store(11, 1, 2);
    let out = handle(&mut store, &event(999, 1, ActionTag::Attack));
    assert!(out.is_none(), "no session: silently ignored");
    assert_eq!(store.len(), 1);
}

#[test]
fn handle_accept_then_attacks_until_the_winner_is_removed() {
    let mut store = seeded_store(11, 1, 2);
    let out = handle(&mut store, &event(11, 2, ActionTag::Accept));
    assert!(matches!(out, Some(RenderInstruction::Update { .. })));
    assert_eq!(store.get(11).unwrap().phase, Phase::InProgress);

    // Alternate correct attackers until somebody wins.
    let mut attacks = 0u32;
    loop {
        let turn = store.get(11).unwrap().turn;
        let out = handle(&mut store, &event(11, turn, ActionTag::Attack)).unwrap();
        attacks += 1;
        match out {
            RenderInstruction::Update { description: Scene::DuelWon { winner, loser }, .. } => {
                assert_eq!((winner, loser), (1, 2));
                break;
            }
            RenderInstruction::Update { .. } => {}
            RenderInstruction::Reject { .. } => panic!("an in-turn attack is never rejected"),
        }
        assert!(attacks < 100);
    }
    assert_eq!(attacks, 19);
    assert!(
        store.get(11).is_none(),
        "the finished duel left the store in the same update"
    );
}

#[test]
fn handle_rejection_touches_nothing_and_repeats_identically() {
    let mut store = seeded_store(11, 1, 2);
    let before = store.get(11).unwrap();
    let wrong = event(11, 1, ActionTag::Accept);
    let first = handle(&mut store, &wrong);
    let second = handle(&mut store, &wrong);
    assert_eq!(
        first,
        Some(RenderInstruction::Reject { reason: Rejection::NotForYou })
    );
    assert_eq!(first, second, "a rejected event is idempotent");
    assert_eq!(store.get(11).unwrap(), before);
    assert_eq!(store.len(), 1);
}

#[test]
fn handle_out_of_turn_attack_rejects_and_changes_nothing() {
    let mut store = seeded_store(11, 1, 2);
    handle(&mut store, &event(11, 2, ActionTag::Accept));
    let before = store.get(11).unwrap();
    assert_eq!(before.turn, 1);
    let out = handle(&mut store, &event(11, 2, ActionTag::Attack));
    assert_eq!(
        out,
        Some(RenderInstruction::Reject { reason: Rejection::NotYourTurn })
    );
    assert_eq!(store.get(11).unwrap(), before);
}

#[test]
fn handle_cancel_removes_the_pending_duel() {
    let mut store = seeded_store(11, 1, 2);
    let out = handle(&mut store, &event(11, 1, ActionTag::Cancel));
    assert!(matches!(out, Some(RenderInstruction::Update { .. })));
    assert!(store.get(11).is_none());
}

#[test]
fn handle_serialized_alternating_attacks_each_land_exactly_once() {
    // Ten events on one session, issued alternately by the two participants
    // in turn order, run through the serialized get-compute-commit cycle:
    // every one of them lands, none twice.
    let mut store = seeded_store(11, 1, 2);
    handle(&mut store, &event(11, 2, ActionTag::Accept));
    let n = 10u32;
    for i in 0..n {
        let actor = if i % 2 == 0 { 1 } else { 2 };
        let out = handle(&mut store, &event(11, actor, ActionTag::Attack)).unwrap();
        assert!(matches!(out, RenderInstruction::Update { .. }));
    }
    let s = store.get(11).unwrap();
    assert_eq!(s.hp_b, INITIAL_HP - 10 * (n / 2), "five attacks aimed at the challenged side");
    assert_eq!(s.hp_a, INITIAL_HP - 10 * (n / 2), "five attacks aimed at the challenger");
    assert_eq!(s.turn, 1, "after an even number of attacks the turn is back at the start");
    assert_eq!(s.phase, Phase::InProgress);
}

#[test]
fn handle_keeps_distinct_sessions_apart() {
    let mut store = seeded_store(11, 1, 2);
    let (other, _) = invite(3, 4, true).unwrap();
    assert!(store.insert(12, other));
    handle(&mut store, &event(11, 2, ActionTag::Accept));
    handle(&mut store, &event(11, 1, ActionTag::Attack));
    let untouched = store.get(12).unwrap();
    assert_eq!(untouched.phase, Phase::AwaitingAcceptance);
    assert_eq!(untouched.hp_b, INITIAL_HP);
    let advanced = store.get(11).unwrap();
    assert_eq!(advanced.hp_b, INITIAL_HP - 10);
}

#[test]
fn stale_events_after_removal_are_ignored() {
    let mut store = seeded_store(11, 1, 2);
    handle(&mut store, &event(11, 1, ActionTag::Cancel));
    let out = handle(&mut store, &event(11, 2, ActionTag::Accept));
    assert!(out.is_none(), "events for a removed duel are silently ignored");
}

#[test]
fn config_rgb_returns_the_channels_in_order() {
    let config = Config {
        discord_prefix: String::from("!"),
        color: [0, 100, 255],
    };
    assert_eq!(config.rgb(), (0, 100, 255));
    assert_eq!(config.discord_prefix, "!");
}
