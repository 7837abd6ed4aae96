//! The discrete requests a character receives, and which animations give way
//! to which.

use vstd::prelude::*;

verus! {

/// One request decoded from player input.
#[derive(Clone, Copy, Debug, PartialEq, Eq, Hash, Structural)]
pub enum CharacterAction {
    Idle,
    Forward,
    Backward,
    Left,
    Right,
    Sprint,
    Jump,
}

impl CharacterAction {
    /// Whether the action asks for motion along one of the four horizontal axes.
    pub open spec fn is_direction(self) -> bool {
        self == CharacterAction::Forward || self == CharacterAction::Backward
            || self == CharacterAction::Left || self == CharacterAction::Right
    }

    /// The actions whose animations end when this action's animation begins,
    /// in the order in which they are stopped.
    pub open spec fn superseded(self) -> Seq<CharacterAction> {
        match self {
            CharacterAction::Idle => seq![
                CharacterAction::Forward,
                CharacterAction::Backward,
                CharacterAction::Left,
                CharacterAction::Right,
            ],
            CharacterAction::Forward => seq![CharacterAction::Backward, CharacterAction::Idle],
            CharacterAction::Backward => seq![CharacterAction::Forward, CharacterAction::Idle],
            CharacterAction::Left => seq![CharacterAction::Right, CharacterAction::Idle],
            CharacterAction::Right => seq![CharacterAction::Left, CharacterAction::Idle],
            CharacterAction::Sprint => Seq::empty(),
            CharacterAction::Jump => Seq::empty(),
        }
    }

    /// Executable form of [`CharacterAction::is_direction`].
    pub fn steers(self) -> (r: bool)
        ensures
            r == self.is_direction(),
    {
        match self {
            CharacterAction::Forward => true,
            CharacterAction::Backward => true,
            CharacterAction::Left => true,
            CharacterAction::Right => true,
            _ => false,
        }
    }

    /// Executable form of [`CharacterAction::superseded`].
    pub fn gives_way(self) -> (r: Vec<CharacterAction>)
        ensures
            r@ == self.superseded(),
    {
        let mut r: Vec<CharacterAction> = Vec::new();
        match self {
            CharacterAction::Idle => {
                r.push(CharacterAction::Forward);
                r.push(CharacterAction::Backward);
                r.push(CharacterAction::Left);
                r.push(CharacterAction::Right);
            },
            CharacterAction::Forward => {
                r.push(CharacterAction::Backward);
                r.push(CharacterAction::Idle);
            },
            CharacterAction::Backward => {
                r.push(CharacterAction::Forward);
                r.push(CharacterAction::Idle);
            },
            CharacterAction::Left => {
                r.push(CharacterAction::Right);
                r.push(CharacterAction::Idle);
            },
            CharacterAction::Right => {
                r.push(CharacterAction::Left);
                r.push(CharacterAction::Idle);
            },
            _ => {},
        }
        r
    }
}

/// What happens to the animation player when an action's animation is asked for.
pub struct AnimationPlan {
    /// Actions whose animations are stopped first, in order.
    pub stop: Vec<CharacterAction>,
    /// Whether the requested animation is then started on repeat.
    pub start: bool,
}

/// Decides what playing the animation of `action` involves.
///
/// `bound` says whether the character has an animation for `action`, and
/// `playing` whether that animation is already running. Without an animation
/// nothing is planned. A running animation is left alone. Otherwise the
/// animations that `action` supersedes are stopped and its own is started.
pub fn play_action_animation(action: CharacterAction, bound: bool, playing: bool) -> (plan: Option<
    AnimationPlan,
>)
    ensures
        plan is Some <==> bound,
        bound && playing ==> plan.unwrap().stop@ == Seq::<CharacterAction>::empty()
            && !plan.unwrap().start,
        bound && !playing ==> plan.unwrap().stop@ == action.superseded() && plan.unwrap().start,
{
    if !bound {
        None
    } else if playing {
        Some(AnimationPlan { stop: Vec::new(), start: false })
    } else {
        Some(AnimationPlan { stop: action.gives_way(), start: true })
    }
}

/// No action's animation stops itself.
pub proof fn lemma_never_supersedes_itself(action: CharacterAction)
    ensures
        !action.superseded().contains(action),
{
    let s = action.superseded();
    assert forall|i: int| 0 <= i < s.len() implies s[i] != action by {}
}

/// Giving way is mutual: whenever starting one action's animation stops
/// another's, starting the other's stops the first's.
pub proof fn lemma_superseding_is_mutual(a: CharacterAction, b: CharacterAction)
    requires
        a.superseded().contains(b),
    ensures
        b.superseded().contains(a),
{
    let s = a.superseded();
    let i = choose|i: int| 0 <= i < s.len() && s[i] == b;
    let t = b.superseded();
    assert(exists|j: int| 0 <= j < t.len() && t[j] == a);
}

} // verus!
