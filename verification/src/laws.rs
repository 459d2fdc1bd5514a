//! The engine's laws: properties of the state machine and of the dispatch
//! cycle, each stated over the same spec functions the contracts use and
//! proved once and for all.

use vstd::prelude::*;

use crate::dispatch::spec_handle;
use crate::dispatch::InteractionEvent;
use crate::duel::spec_apply;
use crate::duel::Action;
use crate::duel::Phase;
use crate::duel::DuelState;
use crate::duel::RenderInstruction;
use crate::duel::ATTACK_DAMAGE;

verus! {

/// The state a duel is left in by one action: the successor when the action
/// succeeds and the duel goes on, the unchanged state otherwise (a rejection
/// changes nothing; a duel that ends or is cancelled has no later state to
/// speak of).
pub open spec fn state_after(s: DuelState, a: Action) -> DuelState {
    match spec_apply(s, a) {
        Ok((Some(next), _)) => next,
        _ => s,
    }
}

/// The state a duel is left in by a whole sequence of actions.
pub open spec fn run(s: DuelState, actions: Seq<Action>) -> DuelState
    decreases actions.len(),
{
    if actions.len() == 0 {
        s
    } else {
        run(state_after(s, actions[0]), actions.drop_first())
    }
}

/// Law: a successful transition hands back a well-formed duel, and never one
/// that is already `Finished` — a finished duel is dropped (`None`) in the
/// same step that declares the winner.
pub proof fn lemma_apply_preserves_wf(s: DuelState, a: Action)
    requires
        s.wf(),
    ensures
        spec_apply(s, a) matches Ok((Some(next), _)) ==> next.wf() && !(next.phase is Finished),
{
}

/// Law: phase transitions are monotonic. A pending duel either stays pending
/// or starts; a duel in progress never returns to pending; and `Finished` is
/// only ever expressed by dropping the state in the same step, never by a
/// stored successor.
pub proof fn lemma_phase_monotonic(s: DuelState, a: Action)
    ensures
        spec_apply(s, a) matches Ok((Some(next), _)) ==> match s.phase {
            Phase::AwaitingAcceptance => next.phase is AwaitingAcceptance || next.phase
                is InProgress,
            Phase::InProgress => next.phase is InProgress,
            Phase::Finished => false,
        },
{
}

/// Law: no single action ever raises either participant's hit points (they
/// cannot go below zero by type alone).
pub proof fn lemma_hp_non_increasing(s: DuelState, a: Action)
    ensures
        state_after(s, a).hp_a <= s.hp_a,
        state_after(s, a).hp_b <= s.hp_b,
{
}

/// Law: over any sequence of actions whatsoever, `hp_a` and `hp_b` are
/// non-increasing, and — being unsigned — never negative.
pub proof fn lemma_run_hp_non_increasing(s: DuelState, actions: Seq<Action>)
    ensures
        run(s, actions).hp_a <= s.hp_a,
        run(s, actions).hp_b <= s.hp_b,
    decreases actions.len(),
{
    if actions.len() > 0 {
        lemma_hp_non_increasing(s, actions[0]);
        lemma_run_hp_non_increasing(state_after(s, actions[0]), actions.drop_first());
    }
}

/// Law: well-formedness — in particular, that `turn` always names one of the
/// two participants — holds after any sequence of actions.
pub proof fn lemma_run_preserves_wf(s: DuelState, actions: Seq<Action>)
    requires
        s.wf(),
    ensures
        run(s, actions).wf(),
    decreases actions.len(),
{
    if actions.len() > 0 {
        lemma_apply_preserves_wf(s, actions[0]);
        lemma_run_preserves_wf(state_after(s, actions[0]), actions.drop_first());
    }
}

/// Law: a successful, non-terminal attack strictly alternates the turn: the
/// successor's turn is the other participant.
pub proof fn lemma_turn_alternates(s: DuelState, a: Action)
    requires
        s.wf(),
        a is Attack,
    ensures
        spec_apply(s, a) matches Ok((Some(next), _)) ==> next.turn != s.turn && next.turn
            == s.other(s.turn),
{
}

/// Law: dispatching an event whose action is rejected changes nothing, so
/// dispatching the very same event again yields the very same rejection and
/// again leaves the store's contents untouched.
pub proof fn lemma_rejection_idempotent(m: Map<u64, DuelState>, e: InteractionEvent)
    ensures
        spec_handle(m, e).1 matches Some(RenderInstruction::Reject { .. }) ==> spec_handle(m, e).0
            == m && spec_handle(spec_handle(m, e).0, e) == spec_handle(m, e),
{
}

/// Whether a count is even; the turn returns to its holder after every even
/// number of alternating attacks.
pub open spec fn even(n: nat) -> bool
    decreases n,
{
    if n == 0 {
        true
    } else {
        !even((n - 1) as nat)
    }
}

/// Of `n` strictly alternating attacks, how many the participant who attacks
/// first delivers: every odd-indexed one, counting from one.
pub open spec fn half_ceil(n: nat) -> nat
    decreases n,
{
    if n == 0 {
        0
    } else {
        1 + half_floor((n - 1) as nat)
    }
}

/// Of `n` strictly alternating attacks, how many the participant who attacks
/// second delivers.
pub open spec fn half_floor(n: nat) -> nat
    decreases n,
{
    if n == 0 {
        0
    } else {
        half_ceil((n - 1) as nat)
    }
}

/// The two halves of an alternating exchange add up to the whole: all `n`
/// attacks are delivered by one participant or the other.
pub proof fn lemma_halves_sum(n: nat)
    ensures
        half_ceil(n) + half_floor(n) == n,
    decreases n,
{
    if n > 0 {
        lemma_halves_sum((n - 1) as nat)
    }
}

/// `n` attacks delivered alternately, `first` striking first.
pub open spec fn alternating_attacks(first: u64, second: u64, n: nat) -> Seq<Action>
    decreases n,
{
    if n == 0 {
        Seq::empty()
    } else {
        seq![Action::Attack { actor: first }] + alternating_attacks(second, first, (n - 1) as nat)
    }
}

/// Law: `n` attacks on one duel, issued alternately by the two participants
/// in turn order and none of them final, land exactly once each: no update is
/// lost and none is applied twice. Each side's hit points drop by precisely
/// the damage of the attacks aimed at it, the duel stays in progress, and the
/// turn ends up back with the first attacker exactly when `n` is even.
pub proof fn lemma_alternating_attacks_exact(s: DuelState, n: nat)
    requires
        s.wf(),
        s.phase is InProgress,
        s.hp_of(s.other(s.turn)) > ATTACK_DAMAGE * half_ceil(n),
        s.hp_of(s.turn) > ATTACK_DAMAGE * half_floor(n),
    ensures
        ({
            let f = run(s, alternating_attacks(s.turn, s.other(s.turn), n));
            &&& f.wf()
            &&& f.phase is InProgress
            &&& f.player_a == s.player_a
            &&& f.player_b == s.player_b
            &&& f.hp_of(s.other(s.turn)) == s.hp_of(s.other(s.turn)) - ATTACK_DAMAGE * half_ceil(n)
            &&& f.hp_of(s.turn) == s.hp_of(s.turn) - ATTACK_DAMAGE * half_floor(n)
            &&& f.turn == if even(n) {
                s.turn
            } else {
                s.other(s.turn)
            }
        }),
    decreases n,
{
    let t = s.turn;
    let d = s.other(t);
    let acts = alternating_attacks(t, d, n);
    if n > 0 {
        let rest = alternating_attacks(d, t, (n - 1) as nat);
        assert(acts.drop_first() =~= rest);
        let next = state_after(s, acts[0]);
        lemma_alternating_attacks_exact(next, (n - 1) as nat);
    }
}

} // verus!
