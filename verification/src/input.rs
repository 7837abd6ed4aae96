//! From the state of the bound keys and buttons to the batch of actions of one
//! tick.

use crate::actions::CharacterAction;
use vstd::prelude::*;

verus! {

/// The two ways a binding can fire.
#[derive(Clone, Copy, Debug, PartialEq, Eq, Structural)]
pub enum Trigger {
    /// On every tick while the key is down.
    Held,
    /// Once, on the tick the key or button goes down.
    Struck,
}

impl CharacterAction {
    /// Whether the action fires on `trigger`: directions and sprinting repeat
    /// while held, a jump fires once when struck, idling is never bound.
    pub open spec fn fires_on(self, trigger: Trigger) -> bool {
        match trigger {
            Trigger::Held => self.is_direction() || self == CharacterAction::Sprint,
            Trigger::Struck => self == CharacterAction::Jump,
        }
    }

    /// Executable form of [`CharacterAction::fires_on`].
    pub fn answers(self, trigger: Trigger) -> (r: bool)
        ensures
            r == self.fires_on(trigger),
    {
        match trigger {
            Trigger::Held => match self {
                CharacterAction::Forward => true,
                CharacterAction::Backward => true,
                CharacterAction::Left => true,
                CharacterAction::Right => true,
                CharacterAction::Sprint => true,
                _ => false,
            },
            Trigger::Struck => match self {
                CharacterAction::Jump => true,
                _ => false,
            },
        }
    }
}

/// Those of `bound` that fire on `trigger`, in order.
pub open spec fn fired(bound: Seq<CharacterAction>, trigger: Trigger) -> Seq<CharacterAction> {
    bound.filter(|a: CharacterAction| a.fires_on(trigger))
}

/// Appends to `batch` the actions of `bound` that fire on `trigger`.
fn push_fired(batch: &mut Vec<CharacterAction>, bound: &Vec<CharacterAction>, trigger: Trigger)
    ensures
        final(batch)@ == old(batch)@ + fired(bound@, trigger),
{
    let ghost keep = |a: CharacterAction| a.fires_on(trigger);
    let mut i: usize = 0;
    while i < bound.len()
        invariant
            0 <= i <= bound.len(),
            keep == |a: CharacterAction| a.fires_on(trigger),
            batch@ == old(batch)@ + bound@.take(i as int).filter(keep),
        decreases bound.len() - i,
    {
        let action = bound[i];
        proof {
            reveal(Seq::filter);
            assert(bound@.take(i + 1).drop_last() =~= bound@.take(i as int));
        }
        if action.answers(trigger) {
            batch.push(action);
        }
        i += 1;
    }
    proof {
        assert(bound@.take(i as int) =~= bound@);
    }
}

/// Builds the batch of actions for one tick.
///
/// `held_keys` are the actions bound to the keys that are down,
/// `struck_keys` and `struck_buttons` the actions bound to the keys and mouse
/// buttons that went down this tick. Held keys come first, then struck keys,
/// then struck buttons, each in the order given. Held mouse buttons and
/// releases fire nothing.
pub fn process_input(
    held_keys: &Vec<CharacterAction>,
    struck_keys: &Vec<CharacterAction>,
    struck_buttons: &Vec<CharacterAction>,
) -> (batch: Vec<CharacterAction>)
    ensures
        batch@ == fired(held_keys@, Trigger::Held) + fired(struck_keys@, Trigger::Struck) + fired(
            struck_buttons@,
            Trigger::Struck,
        ),
{
    let mut batch: Vec<CharacterAction> = Vec::new();
    push_fired(&mut batch, held_keys, Trigger::Held);
    push_fired(&mut batch, struck_keys, Trigger::Struck);
    push_fired(&mut batch, struck_buttons, Trigger::Struck);
    batch
}

/// Nothing but what fires on held or struck bindings enters a batch: a batch
/// never holds an idle request, and holds a jump only if a key or button bound
/// to jumping was struck.
pub proof fn lemma_batch_members(
    held_keys: Seq<CharacterAction>,
    struck_keys: Seq<CharacterAction>,
    struck_buttons: Seq<CharacterAction>,
)
    ensures
        ({
            let batch = fired(held_keys, Trigger::Held) + fired(struck_keys, Trigger::Struck)
                + fired(struck_buttons, Trigger::Struck);
            &&& !batch.contains(CharacterAction::Idle)
            &&& batch.contains(CharacterAction::Jump) <==> struck_keys.contains(
                CharacterAction::Jump,
            ) || struck_buttons.contains(CharacterAction::Jump)
        }),
{
    broadcast use vstd::seq_lib::group_filter_ensures;

    let held = |a: CharacterAction| a.fires_on(Trigger::Held);
    let struck = |a: CharacterAction| a.fires_on(Trigger::Struck);
    let a = held_keys.filter(held);
    let b = struck_keys.filter(struck);
    let c = struck_buttons.filter(struck);
    let batch = a + b + c;
    assert forall|x: CharacterAction| batch.contains(x) implies a.contains(x) || b.contains(x)
        || c.contains(x) by {
        let i = choose|i: int| 0 <= i < batch.len() && batch[i] == x;
        if i < a.len() {
            assert(a[i] == x);
        } else if i < a.len() + b.len() {
            assert(b[i - a.len()] == x);
        } else {
            assert(c[i - a.len() - b.len()] == x);
        }
    }
    assert forall|x: CharacterAction| a.contains(x) implies held(x) && held_keys.contains(x) by {
        held_keys.lemma_filter_contains_rev(held, x);
    }
    assert forall|x: CharacterAction| b.contains(x) implies struck(x) && struck_keys.contains(
        x,
    ) by {
        struck_keys.lemma_filter_contains_rev(struck, x);
    }
    assert forall|x: CharacterAction| c.contains(x) implies struck(x) && struck_buttons.contains(
        x,
    ) by {
        struck_buttons.lemma_filter_contains_rev(struck, x);
    }
    if struck_keys.contains(CharacterAction::Jump) {
        let i = choose|i: int| 0 <= i < struck_keys.len() && struck_keys[i] == CharacterAction::Jump;
        struck_keys.lemma_filter_contains(struck, i);
        let j = choose|j: int| 0 <= j < b.len() && b[j] == CharacterAction::Jump;
        assert(batch[a.len() + j] == CharacterAction::Jump);
    }
    if struck_buttons.contains(CharacterAction::Jump) {
        let i = choose|i: int|
            0 <= i < struck_buttons.len() && struck_buttons[i] == CharacterAction::Jump;
        struck_buttons.lemma_filter_contains(struck, i);
        let j = choose|j: int| 0 <= j < c.len() && c[j] == CharacterAction::Jump;
        assert(batch[a.len() + b.len() + j] == CharacterAction::Jump);
    }
}

} // verus!
