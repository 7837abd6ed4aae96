//! The character's state machine: what a ground probe and a batch of actions
//! do to the character, and which forces they call for.

use crate::actions::CharacterAction;
use vstd::prelude::*;

verus! {

/// The situation of a character with respect to the ground and to outside control.
#[derive(Clone, Copy, Debug, PartialEq, Eq, Structural)]
pub enum CharacterState {
    /// On the ground and free to move; the suspension carries the body.
    Able,
    /// Movement is switched off. Only code outside the controller enters or
    /// leaves this state.
    Unable,
    /// The probe found no ground, or the character has just jumped.
    AirBorne,
}

impl Default for CharacterState {
    fn default() -> (s: Self)
        ensures
            s == CharacterState::Able,
    {
        CharacterState::Able
    }
}

/// How the surface under a probe hit lies against the steepest slope that
/// still carries the character.
#[derive(Clone, Copy, Debug, PartialEq, Eq, Structural)]
pub enum Slope {
    /// The hit came without a usable normal.
    Unknown,
    /// The normal is within the critical angle of straight up.
    Walkable,
    /// The normal is tilted beyond the critical angle.
    Steep,
}

/// The outcome of one downward ground probe.
#[derive(Clone, Copy, Debug, PartialEq, Eq, Structural)]
pub enum Probe {
    /// Nothing within range.
    Miss,
    /// A surface within range.
    Hit(Slope),
}

impl CharacterState {
    /// The state after a probe that did (`hit`) or did not find ground.
    pub open spec fn after_probe(self, hit: bool) -> CharacterState {
        match self {
            CharacterState::Unable => CharacterState::Unable,
            _ => if hit {
                CharacterState::Able
            } else {
                CharacterState::AirBorne
            },
        }
    }
}

/// What one batch of actions calls for, once the state has had its say.
pub struct TickPlan {
    /// The direction requests that are honoured, in the order received.
    pub steering: Vec<CharacterAction>,
    /// Whether the movement impulse uses the sprint cap instead of the run cap.
    pub sprint: bool,
    /// Whether the upward jump impulse is applied.
    pub jump: bool,
}

/// The direction requests honoured from `actions` by a character in `state`.
pub open spec fn steering_of(state: CharacterState, actions: Seq<CharacterAction>) -> Seq<
    CharacterAction,
> {
    if state == CharacterState::Unable {
        Seq::empty()
    } else {
        actions.filter(|a: CharacterAction| a.is_direction())
    }
}

/// Whether `actions` make a character in `state` jump.
pub open spec fn jump_of(state: CharacterState, actions: Seq<CharacterAction>) -> bool {
    state == CharacterState::Able && actions.contains(CharacterAction::Jump)
}

/// Whether `actions` make a character in `state` sprint: a sprint request
/// counts while the character is still on the ground, that is before the
/// first jump of the batch.
pub open spec fn sprint_of(state: CharacterState, actions: Seq<CharacterAction>) -> bool {
    state == CharacterState::Able && exists|i: int|
        0 <= i < actions.len() && actions[i] == CharacterAction::Sprint && forall|k: int|
            0 <= k < i ==> actions[k] != CharacterAction::Jump
}

/// The decision state of one character: where it stands, and whether the
/// floating suspension is switched on.
pub struct CharacterController {
    pub state: CharacterState,
    /// Cleared by a jump so that the suspension does not pull the body back,
    /// set again by the first probe that finds no ground.
    pub floating: bool,
}

impl Default for CharacterController {
    fn default() -> (c: Self)
        ensures
            c.state == CharacterState::Able,
            c.floating,
    {
        CharacterController { state: CharacterState::Able, floating: true }
    }
}

impl CharacterController {
    /// A character on the ground with the suspension on.
    pub fn new() -> (c: Self)
        ensures
            c.state == CharacterState::Able,
            c.floating,
    {
        CharacterController { state: CharacterState::Able, floating: true }
    }

    /// Whether a probe outcome calls for the suspension force: only while
    /// the suspension is on, only on a hit, and not on a steep slope.
    pub open spec fn lifts(self, found: Probe) -> bool {
        self.floating && (found == Probe::Hit(Slope::Unknown) || found == Probe::Hit(
            Slope::Walkable,
        ))
    }

    /// The controller after one probe outcome. Any miss switches the
    /// suspension back on.
    pub open spec fn after_probe(self, found: Probe) -> CharacterController {
        CharacterController {
            state: self.state.after_probe(found is Hit),
            floating: self.floating || found is Miss,
        }
    }

    /// The controller after a run of probe outcomes, oldest first.
    pub open spec fn after_probes(self, probes: Seq<Probe>) -> CharacterController
        decreases probes.len(),
    {
        if probes.len() == 0 {
            self
        } else {
            self.after_probes(probes.drop_last()).after_probe(probes.last())
        }
    }

    /// The controller after one batch of actions: a jump that is honoured
    /// puts the character in the air and switches the suspension off.
    pub open spec fn after_actions(self, actions: Seq<CharacterAction>) -> CharacterController {
        if jump_of(self.state, actions) {
            CharacterController { state: CharacterState::AirBorne, floating: false }
        } else {
            self
        }
    }

    /// Takes in the outcome of this tick's ground probe.
    ///
    /// A hit lands an airborne character; a miss sends a grounded one into the
    /// air and switches the suspension back on. The result says whether the
    /// suspension force is to be applied for this hit: only while the
    /// suspension is on, and never on a slope beyond the critical angle.
    pub fn probe(&mut self, found: Probe) -> (lift: bool)
        ensures
            *final(self) == old(self).after_probe(found),
            lift == old(self).lifts(found),
    {
        match found {
            Probe::Hit(slope) => {
                match self.state {
                    CharacterState::AirBorne => {
                        self.state = CharacterState::Able;
                    },
                    _ => {},
                }
                match slope {
                    Slope::Steep => false,
                    _ => self.floating,
                }
            },
            Probe::Miss => {
                match self.state {
                    CharacterState::Able => {
                        self.state = CharacterState::AirBorne;
                    },
                    _ => {},
                }
                self.floating = true;
                false
            },
        }
    }

    /// Whether a standing character brakes when it is given no direction:
    /// only a grounded one does.
    pub fn brakes(&self) -> (r: bool)
        ensures
            r == (self.state == CharacterState::Able),
    {
        match self.state {
            CharacterState::Able => true,
            _ => false,
        }
    }

    /// Takes in the actions of one tick, in the order received.
    ///
    /// Direction requests are honoured unless movement is switched off. A
    /// sprint or jump request is honoured only on the ground; the first jump
    /// puts the character in the air and switches the suspension off, so later
    /// sprint and jump requests of the same batch are ignored.
    pub fn process_actions(&mut self, actions: &Vec<CharacterAction>) -> (plan: TickPlan)
        ensures
            plan.steering@ == steering_of(old(self).state, actions@),
            plan.sprint == sprint_of(old(self).state, actions@),
            plan.jump == jump_of(old(self).state, actions@),
            *final(self) == old(self).after_actions(actions@),
    {
        let ghost start = self.state;
        let mut steering: Vec<CharacterAction> = Vec::new();
        let mut sprint = false;
        let mut jump = false;
        let mut i: usize = 0;
        while i < actions.len()
            invariant
                0 <= i <= actions.len(),
                steering@ == steering_of(start, actions@.take(i as int)),
                sprint == sprint_of(start, actions@.take(i as int)),
                jump == jump_of(start, actions@.take(i as int)),
                self.state == if jump {
                    CharacterState::AirBorne
                } else {
                    start
                },
                self.floating == (old(self).floating && !jump),
            decreases actions.len() - i,
        {
            let action = actions[i];
            let ghost before = actions@.take(i as int);
            let ghost after = actions@.take(i + 1);
            proof {
                reveal(Seq::filter);
                assert(after.drop_last() =~= before);
            }
            match self.state {
                CharacterState::Unable => {},
                _ => {
                    if action.steers() {
                        steering.push(action);
                    }
                },
            }
            match action {
                CharacterAction::Sprint => {
                    match self.state {
                        CharacterState::Able => {
                            sprint = true;
                        },
                        _ => {},
                    }
                },
                CharacterAction::Jump => {
                    match self.state {
                        CharacterState::Able => {
                            self.state = CharacterState::AirBorne;
                            self.floating = false;
                            jump = true;
                        },
                        _ => {},
                    }
                },
                _ => {},
            }
            proof {
                lemma_jump_step(start, before, action);
                lemma_sprint_step(start, before, action);
            }
            i += 1;
        }
        proof {
            assert(actions@.take(i as int) =~= actions@);
        }
        TickPlan { steering, sprint, jump }
    }
}

/// Extending a batch by one action: the batch makes the character jump if it
/// did before, or if the new action is a jump.
proof fn lemma_jump_step(
    state: CharacterState,
    actions: Seq<CharacterAction>,
    next: CharacterAction,
)
    ensures
        jump_of(state, actions.push(next)) == (jump_of(state, actions) || (state
            == CharacterState::Able && next == CharacterAction::Jump)),
{
    let longer = actions.push(next);
    if actions.contains(CharacterAction::Jump) {
        let i = choose|i: int| 0 <= i < actions.len() && actions[i] == CharacterAction::Jump;
        assert(longer[i] == CharacterAction::Jump);
    }
    if next == CharacterAction::Jump {
        assert(longer[actions.len() as int] == CharacterAction::Jump);
    }
    if longer.contains(CharacterAction::Jump) {
        let i = choose|i: int| 0 <= i < longer.len() && longer[i] == CharacterAction::Jump;
        if i < actions.len() {
            assert(actions[i] == CharacterAction::Jump);
        }
    }
}

/// Extending a batch by one action: the batch makes the character sprint if
/// it did before, or if the new action is a sprint request and no jump came
/// earlier.
proof fn lemma_sprint_step(
    state: CharacterState,
    actions: Seq<CharacterAction>,
    next: CharacterAction,
)
    ensures
        sprint_of(state, actions.push(next)) == (sprint_of(state, actions) || (state
            == CharacterState::Able && next == CharacterAction::Sprint && !jump_of(
            state,
            actions,
        ))),
{
    let longer = actions.push(next);
    let n = actions.len() as int;
    if sprint_of(state, actions) {
        let i = choose|i: int|
            0 <= i < actions.len() && actions[i] == CharacterAction::Sprint && forall|k: int|
                0 <= k < i ==> actions[k] != CharacterAction::Jump;
        assert(longer[i] == CharacterAction::Sprint);
        assert forall|k: int| 0 <= k < i implies longer[k] != CharacterAction::Jump by {
            assert(longer[k] == actions[k]);
        }
        assert(sprint_of(state, longer));
    }
    if state == CharacterState::Able && next == CharacterAction::Sprint && !jump_of(
        state,
        actions,
    ) {
        assert(longer[n] == CharacterAction::Sprint);
        assert forall|k: int| 0 <= k < n implies longer[k] != CharacterAction::Jump by {
            assert(longer[k] == actions[k]);
            if actions[k] == CharacterAction::Jump {
                assert(actions.contains(CharacterAction::Jump));
            }
        }
        assert(sprint_of(state, longer));
    }
    if sprint_of(state, longer) {
        let i = choose|i: int|
            0 <= i < longer.len() && longer[i] == CharacterAction::Sprint && forall|k: int|
                0 <= k < i ==> longer[k] != CharacterAction::Jump;
        if i < n {
            assert(actions[i] == CharacterAction::Sprint);
            assert forall|k: int| 0 <= k < i implies actions[k] != CharacterAction::Jump by {
                assert(longer[k] == actions[k]);
            }
            assert(sprint_of(state, actions));
        } else {
            assert(next == CharacterAction::Sprint);
            if actions.contains(CharacterAction::Jump) {
                let j = choose|j: int|
                    0 <= j < actions.len() && actions[j] == CharacterAction::Jump;
                assert(longer[j] == CharacterAction::Jump);
            }
        }
    }
}

/// Movement switched off stays switched off: no probe outcome and no batch of
/// actions takes a character out of `Unable`, and none of its requests is
/// honoured.
pub proof fn lemma_unable_holds(
    c: CharacterController,
    found: Probe,
    actions: Seq<CharacterAction>,
)
    requires
        c.state == CharacterState::Unable,
    ensures
        c.after_probe(found).state == CharacterState::Unable,
        c.after_actions(actions) == c,
        steering_of(c.state, actions).len() == 0,
        !sprint_of(c.state, actions),
        !jump_of(c.state, actions),
{
}

/// On level ground the suspension force is called for exactly while the
/// suspension is switched on.
pub proof fn lemma_level_ground_lifts_while_on(c: CharacterController)
    ensures
        c.lifts(Probe::Hit(Slope::Walkable)) == c.floating,
{
}

/// A surface tilted beyond the critical angle never calls for the suspension
/// force, whether the suspension is on or off.
pub proof fn lemma_steep_never_lifts(c: CharacterController)
    ensures
        !c.lifts(Probe::Hit(Slope::Steep)),
{
}

/// A jump keeps the suspension from pulling the body back: after a batch that
/// makes a grounded character jump, no probe calls for the suspension force
/// as long as every probe since has found ground.
pub proof fn lemma_jump_suspends_until_miss(
    c: CharacterController,
    actions: Seq<CharacterAction>,
    hits: Seq<Probe>,
    found: Probe,
)
    requires
        c.state == CharacterState::Able,
        actions.contains(CharacterAction::Jump),
        forall|i: int| 0 <= i < hits.len() ==> hits[i] is Hit,
    ensures
        !c.after_actions(actions).after_probes(hits).floating,
        !c.after_actions(actions).after_probes(hits).lifts(found),
    decreases hits.len(),
{
    if hits.len() > 0 {
        lemma_jump_suspends_until_miss(c, actions, hits.drop_last(), found);
    }
}

/// The first probe that finds no ground switches the suspension back on, so
/// that the next hit on walkable ground carries the character again, and
/// lands it unless movement is switched off.
pub proof fn lemma_miss_then_hit_lands(c: CharacterController, slope: Slope)
    requires
        slope != Slope::Steep,
    ensures
        c.after_probe(Probe::Miss).lifts(Probe::Hit(slope)),
        c.state != CharacterState::Unable ==> c.after_probe(Probe::Miss).state
            == CharacterState::AirBorne && c.after_probe(Probe::Miss).after_probe(
            Probe::Hit(slope),
        ).state == CharacterState::Able,
{
}

} // verus!
