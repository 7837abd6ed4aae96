//! Which bones of a character's rig carry a collider.

use crate::paths::stands_at;
use vstd::prelude::*;
use vstd::string::StringSliceAdditionalSpecFns;

verus! {

/// A bone that gets a collider. The left and the right bone of a pair get the
/// same one.
#[derive(Clone, Copy, Debug, PartialEq, Eq, Hash, Structural)]
pub enum RigPart {
    Head,
    Neck,
    Chest,
    Waist,
    Pelvis,
    Breast,
    Shoulder,
    Elbow,
    Hip,
    Knee,
}

/// The part that a bone called `name` is, if it carries a collider.
pub open spec fn part_named(name: Seq<u8>) -> Option<RigPart> {
    if name == "head".spec_bytes() {
        Some(RigPart::Head)
    } else if name == "neck".spec_bytes() {
        Some(RigPart::Neck)
    } else if name == "chest".spec_bytes() {
        Some(RigPart::Chest)
    } else if name == "waist".spec_bytes() {
        Some(RigPart::Waist)
    } else if name == "pelvis".spec_bytes() {
        Some(RigPart::Pelvis)
    } else if name == "left_breast".spec_bytes() || name == "right_breast".spec_bytes() {
        Some(RigPart::Breast)
    } else if name == "left_shoulder".spec_bytes() || name == "right_shoulder".spec_bytes() {
        Some(RigPart::Shoulder)
    } else if name == "left_elbow".spec_bytes() || name == "right_elbow".spec_bytes() {
        Some(RigPart::Elbow)
    } else if name == "left_hip".spec_bytes() || name == "right_hip".spec_bytes() {
        Some(RigPart::Hip)
    } else if name == "left_knee".spec_bytes() || name == "right_knee".spec_bytes() {
        Some(RigPart::Knee)
    } else {
        None
    }
}

/// Whether `name` is exactly `word`.
fn is_word(name: &[u8], word: &str) -> (r: bool)
    ensures
        r == (name@ == word.spec_bytes()),
{
    let bytes = word.as_bytes();
    proof {
        assert(bytes@.skip(0) =~= bytes@);
        if name@.len() == bytes@.len() {
            assert(name@.subrange(0, name@.len() as int) =~= name@);
        }
    }
    name.len() == bytes.len() && stands_at(name, bytes, 0, 0)
}

impl RigPart {
    /// Looks a bone up by its name.
    pub fn from_name(name: &str) -> (r: Option<RigPart>)
        ensures
            r == part_named(name.spec_bytes()),
    {
        let n = name.as_bytes();
        if is_word(n, "head") {
            Some(RigPart::Head)
        } else if is_word(n, "neck") {
            Some(RigPart::Neck)
        } else if is_word(n, "chest") {
            Some(RigPart::Chest)
        } else if is_word(n, "waist") {
            Some(RigPart::Waist)
        } else if is_word(n, "pelvis") {
            Some(RigPart::Pelvis)
        } else if is_word(n, "left_breast") || is_word(n, "right_breast") {
            Some(RigPart::Breast)
        } else if is_word(n, "left_shoulder") || is_word(n, "right_shoulder") {
            Some(RigPart::Shoulder)
        } else if is_word(n, "left_elbow") || is_word(n, "right_elbow") {
            Some(RigPart::Elbow)
        } else if is_word(n, "left_hip") || is_word(n, "right_hip") {
            Some(RigPart::Hip)
        } else if is_word(n, "left_knee") || is_word(n, "right_knee") {
            Some(RigPart::Knee)
        } else {
            None
        }
    }
}

} // verus!
