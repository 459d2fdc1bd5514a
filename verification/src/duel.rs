//! The duel state machine: one duel's data, the actions that can reach it,
//! and the pure transition function `apply`.

use vstd::prelude::*;

verus! {

/// Hit points each participant starts with.
pub const INITIAL_HP: u32 = 100;

/// Hit points one successful attack removes from the defender.
pub const ATTACK_DAMAGE: u32 = 10;

/// Coarse lifecycle stage of a duel.
#[derive(Clone, Copy, Debug, PartialEq, Eq, Structural)]
pub enum Phase {
    AwaitingAcceptance,
    InProgress,
    Finished,
}

/// The state of one duel. `player_a` is the challenger, `player_b` the
/// challenged participant; identifiers are opaque and only ever compared.
#[derive(Clone, Copy, Debug, PartialEq, Eq, Structural)]
pub struct DuelState {
    pub player_a: u64,
    pub player_b: u64,
    pub hp_a: u32,
    pub hp_b: u32,
    pub turn: u64,
    pub phase: Phase,
}

impl DuelState {
    /// Well-formedness: the participants differ, the turn belongs to one of
    /// them, nobody stands at zero hit points while the duel is in progress,
    /// a pending invitation still has full hit points, and hit points never
    /// exceed their initial value.
    pub open spec fn wf(self) -> bool {
        &&& self.player_a != self.player_b
        &&& self.turn == self.player_a || self.turn == self.player_b
        &&& self.phase is InProgress ==> self.hp_a > 0 && self.hp_b > 0
        &&& self.phase is AwaitingAcceptance ==> self.hp_a == INITIAL_HP && self.hp_b == INITIAL_HP
        &&& self.hp_a <= INITIAL_HP
        &&& self.hp_b <= INITIAL_HP
    }

    /// The participant opposite to `actor` (the challenger when `actor` is
    /// not a participant at all).
    pub open spec fn other(self, actor: u64) -> u64 {
        if actor == self.player_a {
            self.player_b
        } else {
            self.player_a
        }
    }

    /// The hit points of participant `p` (of the challenger when `p` is not
    /// a participant at all).
    pub open spec fn hp_of(self, p: u64) -> u32 {
        if p == self.player_b {
            self.hp_b
        } else {
            self.hp_a
        }
    }
}

/// An inbound action, carrying the identity of whoever triggered it.
#[derive(Clone, Copy, Debug, PartialEq, Eq, Structural)]
pub enum Action {
    Accept { actor: u64 },
    Cancel { actor: u64 },
    Attack { actor: u64 },
}

/// Why an action was turned down. A rejection never changes any state and is
/// reported privately to the actor alone.
#[derive(Clone, Copy, Debug, PartialEq, Eq, Structural)]
pub enum Rejection {
    /// The actor is not the participant this action is meant for.
    NotForYou,
    /// An attack arrived from the participant whose turn it is not.
    NotYourTurn,
    /// The duel is not in a phase where this action means anything.
    WrongPhase,
    /// An invitation named the challenger themselves or an ineligible opponent.
    IneligibleOpponent,
}

impl Rejection {
    /// The private notice shown to the actor whose action was rejected.
    pub fn message(&self) -> (r: &'static str)
        ensures
            self is NotForYou ==> r@ == "This duel challenge is not for you!"@,
            self is NotYourTurn ==> r@ == "It's not your turn!"@,
            self is WrongPhase ==> r@ == "That action does not apply to this duel right now."@,
            self is IneligibleOpponent ==> r@ == "You can't duel yourself or a bot!"@,
    {
        match self {
            Rejection::NotForYou => "This duel challenge is not for you!",
            Rejection::NotYourTurn => "It's not your turn!",
            Rejection::WrongPhase => "That action does not apply to this duel right now.",
            Rejection::IneligibleOpponent => "You can't duel yourself or a bot!",
        }
    }
}

/// Which interactive elements the presentation layer should offer next.
#[derive(Clone, Copy, Debug, PartialEq, Eq, Structural)]
pub enum Controls {
    /// The invitation's accept and cancel buttons.
    AcceptOrCancel,
    /// An attack button for the participant whose turn it is, a disabled
    /// waiting button for the other.
    AttackOrWait,
    /// No interactive elements: the duel is over or cancelled.
    NoControls,
}

/// The headline the presentation layer should show.
#[derive(Clone, Copy, Debug, PartialEq, Eq, Structural)]
pub enum Title {
    DuelChallenge,
    DuelStarted,
    DuelInProgress,
    DuelCancelled,
}

impl Title {
    /// The headline's text.
    pub fn text(&self) -> (r: &'static str)
        ensures
            self is DuelChallenge ==> r@ == "Duel Challenge"@,
            self is DuelStarted ==> r@ == "Duel Started!"@,
            self is DuelInProgress ==> r@ == "Duel in Progress"@,
            self is DuelCancelled ==> r@ == "Duel Cancelled"@,
    {
        match self {
            Title::DuelChallenge => "Duel Challenge",
            Title::DuelStarted => "Duel Started!",
            Title::DuelInProgress => "Duel in Progress",
            Title::DuelCancelled => "Duel Cancelled",
        }
    }
}

/// What an update depicts. Participants appear as their opaque identifiers;
/// resolving them to display names is the presentation layer's side effect,
/// performed strictly after the state change has been committed.
#[derive(Clone, Copy, Debug, PartialEq, Eq, Structural)]
pub enum Scene {
    ChallengeIssued,
    DuelStarted { first_turn: u64 },
    AttackLanded { attacker: u64, defender: u64, damage: u32, next_turn: u64 },
    DuelWon { winner: u64, loser: u64 },
    DuelCancelled,
}

/// The engine's sole output: either a private rejection notice for the
/// triggering actor, or an update of the duel's shared display.
#[derive(Clone, Copy, Debug, PartialEq, Eq, Structural)]
pub enum RenderInstruction {
    Reject { reason: Rejection },
    Update {
        title: Title,
        description: Scene,
        player_a: u64,
        player_b: u64,
        hp_a: u32,
        hp_b: u32,
        controls: Controls,
    },
}

/// What one action does to one duel: a rejection, or the successor state
/// (`None` when the duel ends and must leave the store) with the update to
/// show.
pub type StepResult = Result<(Option<DuelState>, RenderInstruction), Rejection>;

/// The defender's hit points after one attack: `ATTACK_DAMAGE` is taken off,
/// clamped at zero before any winner is looked for.
pub open spec fn damage_applied(hp: u32) -> u32 {
    if hp >= ATTACK_DAMAGE {
        (hp - ATTACK_DAMAGE) as u32
    } else {
        0
    }
}

/// Transition on `Accept`: only the challenged participant may accept, and
/// only while the invitation is pending; the duel then starts with the
/// challenger's turn.
pub open spec fn spec_accept(s: DuelState, actor: u64) -> StepResult {
    if !(s.phase is AwaitingAcceptance) {
        Err(Rejection::WrongPhase)
    } else if actor != s.player_b {
        Err(Rejection::NotForYou)
    } else {
        let next = DuelState { turn: s.player_a, phase: Phase::InProgress, ..s };
        Ok(
            (
                Some(next),
                RenderInstruction::Update {
                    title: Title::DuelStarted,
                    description: Scene::DuelStarted { first_turn: s.player_a },
                    player_a: s.player_a,
                    player_b: s.player_b,
                    hp_a: s.hp_a,
                    hp_b: s.hp_b,
                    controls: Controls::AttackOrWait,
                },
            ),
        )
    }
}

/// Transition on `Cancel`: either participant may cancel a pending
/// invitation; the duel leaves the store.
pub open spec fn spec_cancel(s: DuelState, actor: u64) -> StepResult {
    if !(s.phase is AwaitingAcceptance) {
        Err(Rejection::WrongPhase)
    } else if actor != s.player_a && actor != s.player_b {
        Err(Rejection::NotForYou)
    } else {
        Ok(
            (
                None,
                RenderInstruction::Update {
                    title: Title::DuelCancelled,
                    description: Scene::DuelCancelled,
                    player_a: s.player_a,
                    player_b: s.player_b,
                    hp_a: s.hp_a,
                    hp_b: s.hp_b,
                    controls: Controls::NoControls,
                },
            ),
        )
    }
}

/// Transition on `Attack`: only the participant holding the turn may attack.
/// The damage is clamped at zero first; a defender at exactly zero then makes
/// the attacker the winner and ends the duel (no successor state), otherwise
/// the turn flips to the defender.
pub open spec fn spec_attack(s: DuelState, actor: u64) -> StepResult {
    if !(s.phase is InProgress) {
        Err(Rejection::WrongPhase)
    } else if actor != s.turn {
        Err(Rejection::NotYourTurn)
    } else {
        let defender = s.other(actor);
        let hp_a = if defender == s.player_a {
            damage_applied(s.hp_a)
        } else {
            s.hp_a
        };
        let hp_b = if defender == s.player_b {
            damage_applied(s.hp_b)
        } else {
            s.hp_b
        };
        if hp_a == 0 || hp_b == 0 {
            Ok(
                (
                    None,
                    RenderInstruction::Update {
                        title: Title::DuelInProgress,
                        description: Scene::DuelWon { winner: actor, loser: defender },
                        player_a: s.player_a,
                        player_b: s.player_b,
                        hp_a: hp_a,
                        hp_b: hp_b,
                        controls: Controls::NoControls,
                    },
                ),
            )
        } else {
            let next = DuelState { hp_a: hp_a, hp_b: hp_b, turn: defender, ..s };
            Ok(
                (
                    Some(next),
                    RenderInstruction::Update {
                        title: Title::DuelInProgress,
                        description: Scene::AttackLanded {
                            attacker: actor,
                            defender: defender,
                            damage: ATTACK_DAMAGE,
                            next_turn: defender,
                        },
                        player_a: s.player_a,
                        player_b: s.player_b,
                        hp_a: hp_a,
                        hp_b: hp_b,
                        controls: Controls::AttackOrWait,
                    },
                ),
            )
        }
    }
}

/// The whole transition table, one action at a time.
pub open spec fn spec_apply(s: DuelState, a: Action) -> StepResult {
    match a {
        Action::Accept { actor } => spec_accept(s, actor),
        Action::Cancel { actor } => spec_cancel(s, actor),
        Action::Attack { actor } => spec_attack(s, actor),
    }
}

/// Subtract one attack's damage from `hp`, clamped at zero.
fn damaged(hp: u32) -> (r: u32)
    ensures
        r == damage_applied(hp),
{
    if hp >= ATTACK_DAMAGE {
        hp - ATTACK_DAMAGE
    } else {
        0
    }
}

/// The pure duel state machine: given the current state and an action,
/// return exactly what `spec_apply` says — a rejection (state untouched), or
/// the successor state (`None` when the duel ends) and the update to render.
pub fn apply(state: &DuelState, action: &Action) -> (r: StepResult)
    ensures
        r == spec_apply(*state, *action),
{
    match *action {
        Action::Accept { actor } => {
            if !matches!(state.phase, Phase::AwaitingAcceptance) {
                Err(Rejection::WrongPhase)
            } else if actor != state.player_b {
                Err(Rejection::NotForYou)
            } else {
                let next = DuelState { turn: state.player_a, phase: Phase::InProgress, ..*state };
                Ok(
                    (
                        Some(next),
                        RenderInstruction::Update {
                            title: Title::DuelStarted,
                            description: Scene::DuelStarted { first_turn: state.player_a },
                            player_a: state.player_a,
                            player_b: state.player_b,
                            hp_a: state.hp_a,
                            hp_b: state.hp_b,
                            controls: Controls::AttackOrWait,
                        },
                    ),
                )
            }
        },
        Action::Cancel { actor } => {
            if !matches!(state.phase, Phase::AwaitingAcceptance) {
                Err(Rejection::WrongPhase)
            } else if actor != state.player_a && actor != state.player_b {
                Err(Rejection::NotForYou)
            } else {
                Ok(
                    (
                        None,
                        RenderInstruction::Update {
                            title: Title::DuelCancelled,
                            description: Scene::DuelCancelled,
                            player_a: state.player_a,
                            player_b: state.player_b,
                            hp_a: state.hp_a,
                            hp_b: state.hp_b,
                            controls: Controls::NoControls,
                        },
                    ),
                )
            }
        },
        Action::Attack { actor } => {
            if !matches!(state.phase, Phase::InProgress) {
                Err(Rejection::WrongPhase)
            } else if actor != state.turn {
                Err(Rejection::NotYourTurn)
            } else {
                let defender = if actor == state.player_a {
                    state.player_b
                } else {
                    state.player_a
                };
                let hp_a = if defender == state.player_a {
                    damaged(state.hp_a)
                } else {
                    state.hp_a
                };
                let hp_b = if defender == state.player_b {
                    damaged(state.hp_b)
                } else {
                    state.hp_b
                };
                if hp_a == 0 || hp_b == 0 {
                    Ok(
                        (
                            None,
                            RenderInstruction::Update {
                                title: Title::DuelInProgress,
                                description: Scene::DuelWon { winner: actor, loser: defender },
                                player_a: state.player_a,
                                player_b: state.player_b,
                                hp_a: hp_a,
                                hp_b: hp_b,
                                controls: Controls::NoControls,
                            },
                        ),
                    )
                } else {
                    let next = DuelState { hp_a: hp_a, hp_b: hp_b, turn: defender, ..*state };
                    Ok(
                        (
                            Some(next),
                            RenderInstruction::Update {
                                title: Title::DuelInProgress,
                                description: Scene::AttackLanded {
                                    attacker: actor,
                                    defender: defender,
                                    damage: ATTACK_DAMAGE,
                                    next_turn: defender,
                                },
                                player_a: state.player_a,
                                player_b: state.player_b,
                                hp_a: hp_a,
                                hp_b: hp_b,
                                controls: Controls::AttackOrWait,
                            },
                        ),
                    )
                }
            }
        },
    }
}

/// What issuing an invitation yields: the fresh pending duel and the
/// invitation to render, or a rejection surfaced to the challenger alone.
pub open spec fn spec_invite(challenger: u64, opponent: u64, opponent_eligible: bool) -> Result<
    (DuelState, RenderInstruction),
    Rejection,
> {
    if challenger == opponent || !opponent_eligible {
        Err(Rejection::IneligibleOpponent)
    } else {
        let state = DuelState {
            player_a: challenger,
            player_b: opponent,
            hp_a: INITIAL_HP,
            hp_b: INITIAL_HP,
            turn: challenger,
            phase: Phase::AwaitingAcceptance,
        };
        Ok(
            (
                state,
                RenderInstruction::Update {
                    title: Title::DuelChallenge,
                    description: Scene::ChallengeIssued,
                    player_a: challenger,
                    player_b: opponent,
                    hp_a: INITIAL_HP,
                    hp_b: INITIAL_HP,
                    controls: Controls::AcceptOrCancel,
                },
            ),
        )
    }
}

/// Create a duel invitation. A self-duel or an ineligible opponent (the
/// caller passes `opponent_eligible = false` for an automated account) is
/// rejected before any state exists; otherwise the pending, well-formed duel
/// and its invitation are handed back for the caller to store and render.
pub fn invite(challenger: u64, opponent: u64, opponent_eligible: bool) -> (r: Result<
    (DuelState, RenderInstruction),
    Rejection,
>)
    ensures
        r == spec_invite(challenger, opponent, opponent_eligible),
        r matches Ok((state, _)) ==> state.wf() && state.phase is AwaitingAcceptance,
{
    if challenger == opponent || !opponent_eligible {
        Err(Rejection::IneligibleOpponent)
    } else {
        let state = DuelState {
            player_a: challenger,
            player_b: opponent,
            hp_a: INITIAL_HP,
            hp_b: INITIAL_HP,
            turn: challenger,
            phase: Phase::AwaitingAcceptance,
        };
        Ok(
            (
                state,
                RenderInstruction::Update {
                    title: Title::DuelChallenge,
                    description: Scene::ChallengeIssued,
                    player_a: challenger,
                    player_b: opponent,
                    hp_a: INITIAL_HP,
                    hp_b: INITIAL_HP,
                    controls: Controls::AcceptOrCancel,
                },
            ),
        )
    }
}

} // verus!
