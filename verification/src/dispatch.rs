//! The event dispatcher: for each inbound interaction event, look the duel
//! up, run the state machine, commit the outcome to the store, and hand back
//! the instruction to render. All decisions live in `duel::apply`; the
//! dispatcher only orchestrates the atomic get-compute-commit cycle.

use vstd::prelude::*;

use crate::duel::spec_apply;
use crate::duel::apply;
use crate::duel::Action;
use crate::duel::DuelState;
use crate::duel::RenderInstruction;
use crate::laws::lemma_apply_preserves_wf;
use crate::store::SessionStore;

verus! {

/// Which kind of action an inbound click resolves to.
#[derive(Clone, Copy, Debug, PartialEq, Eq, Structural)]
pub enum ActionTag {
    Accept,
    Cancel,
    Attack,
}

/// One inbound interaction event: the session key of the message that was
/// clicked, the identity of whoever clicked, and what the click asks for.
#[derive(Clone, Copy, Debug, PartialEq, Eq, Structural)]
pub struct InteractionEvent {
    pub session_key: u64,
    pub actor: u64,
    pub tag: ActionTag,
}

/// The action an event stands for.
pub open spec fn action_of(e: InteractionEvent) -> Action {
    match e.tag {
        ActionTag::Accept => Action::Accept { actor: e.actor },
        ActionTag::Cancel => Action::Cancel { actor: e.actor },
        ActionTag::Attack => Action::Attack { actor: e.actor },
    }
}

/// Turn an event into the action it stands for.
pub fn resolve_action(e: &InteractionEvent) -> (a: Action)
    ensures
        a == action_of(*e),
{
    match e.tag {
        ActionTag::Accept => Action::Accept { actor: e.actor },
        ActionTag::Cancel => Action::Cancel { actor: e.actor },
        ActionTag::Attack => Action::Attack { actor: e.actor },
    }
}

/// What one event does to the store's contents, and what is rendered:
/// an event for an absent session key is silently ignored; a rejection
/// leaves the contents untouched and yields a private notice; a successor
/// state replaces the old one; a finished or cancelled duel is removed.
pub open spec fn spec_handle(m: Map<u64, DuelState>, e: InteractionEvent) -> (Map<u64, DuelState>, Option<
    RenderInstruction,
>) {
    if !m.contains_key(e.session_key) {
        (m, None)
    } else {
        match spec_apply(m[e.session_key], action_of(e)) {
            Ok((Some(next), instr)) => (m.insert(e.session_key, next), Some(instr)),
            Ok((None, instr)) => (m.remove(e.session_key), Some(instr)),
            Err(reason) => (m, Some(RenderInstruction::Reject { reason })),
        }
    }
}

/// Handle one inbound event against the store: exactly the get-compute-commit
/// cycle that `spec_handle` describes, returning the instruction to render
/// (`None` when no session exists for the event's key). The caller runs this
/// whole call inside its per-store critical section, so the cycle is atomic
/// with respect to other events.
pub fn handle(store: &mut SessionStore, event: &InteractionEvent) -> (r: Option<RenderInstruction>)
    requires
        old(store).wf(),
    ensures
        final(store).wf(),
        (final(store)@, r) == spec_handle(old(store)@, *event),
{
    let key = event.session_key;
    match store.get(key) {
        None => None,
        Some(state) => {
            let action = resolve_action(event);
            proof {
                lemma_apply_preserves_wf(state, action);
            }
            match apply(&state, &action) {
                Err(reason) => Some(RenderInstruction::Reject { reason }),
                Ok((Some(next), instr)) => {
                    store.replace(key, next);
                    Some(instr)
                },
                Ok((None, instr)) => {
                    store.remove(key);
                    Some(instr)
                },
            }
        },
    }
}

} // verus!
