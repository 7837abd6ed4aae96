//! The catalogue of scenes and animations found in model files.

use vstd::prelude::*;

verus! {

/// The part of a character that an asset dresses.
#[derive(Clone, Copy, Debug, PartialEq, Eq, Hash, Structural)]
pub enum AssetTarget {
    Misc,
    Head,
    Body,
}

impl Default for AssetTarget {
    fn default() -> (t: Self)
        ensures
            t == AssetTarget::Misc,
    {
        AssetTarget::Misc
    }
}

/// One scene of a model file.
pub struct SceneMetadata {
    /// Position of the scene in its file.
    pub index: usize,
    /// The scene's name, empty where the file gives none.
    pub name: String,
    /// Path of the file below the asset directory.
    pub relative_path: String,
    pub target: AssetTarget,
}

/// One animation of a model file.
pub struct AnimationMetadata {
    /// Position of the animation in its file.
    pub index: usize,
    /// The animation's name, empty where the file gives none.
    pub name: String,
    /// Path of the file below the asset directory.
    pub relative_path: String,
}

/// What a [`SceneMetadata`] says, as plain values.
pub ghost struct SceneRecord {
    pub index: usize,
    pub name: Seq<char>,
    pub relative_path: Seq<char>,
    pub target: AssetTarget,
}

/// What an [`AnimationMetadata`] says, as plain values.
pub ghost struct AnimationRecord {
    pub index: usize,
    pub name: Seq<char>,
    pub relative_path: Seq<char>,
}

impl View for SceneMetadata {
    type V = SceneRecord;

    open spec fn view(&self) -> SceneRecord {
        SceneRecord {
            index: self.index,
            name: self.name@,
            relative_path: self.relative_path@,
            target: self.target,
        }
    }
}

impl View for AnimationMetadata {
    type V = AnimationRecord;

    open spec fn view(&self) -> AnimationRecord {
        AnimationRecord {
            index: self.index,
            name: self.name@,
            relative_path: self.relative_path@,
        }
    }
}

/// The name a catalogue entry gets: the one listed, or the empty name.
pub open spec fn listed_name(name: Option<Seq<char>>) -> Seq<char> {
    match name {
        Some(n) => n,
        None => Seq::empty(),
    }
}

/// The scene entries that a file's `listing` of indices and names gives.
pub open spec fn scene_records(
    listing: Seq<(usize, Option<Seq<char>>)>,
    relative_path: Seq<char>,
    target: AssetTarget,
) -> Seq<SceneRecord> {
    Seq::new(
        listing.len(),
        |i: int|
            SceneRecord {
                index: listing[i].0,
                name: listed_name(listing[i].1),
                relative_path,
                target,
            },
    )
}

/// The animation entries that a file's `listing` of indices and names gives.
pub open spec fn animation_records(
    listing: Seq<(usize, Option<Seq<char>>)>,
    relative_path: Seq<char>,
) -> Seq<AnimationRecord> {
    Seq::new(
        listing.len(),
        |i: int|
            AnimationRecord {
                index: listing[i].0,
                name: listed_name(listing[i].1),
                relative_path,
            },
    )
}

/// Every scene and animation found so far, in the order found.
pub struct AssetMetadata {
    pub scenes: Vec<SceneMetadata>,
    pub animations: Vec<AnimationMetadata>,
}

impl Default for AssetMetadata {
    fn default() -> (m: Self)
        ensures
            m.scene_list().len() == 0,
            m.animation_list().len() == 0,
    {
        AssetMetadata { scenes: Vec::new(), animations: Vec::new() }
    }
}

impl AssetMetadata {
    /// The scene entries as plain values.
    pub open spec fn scene_list(&self) -> Seq<SceneRecord> {
        Seq::new(self.scenes@.len(), |i: int| self.scenes@[i]@)
    }

    /// The animation entries as plain values.
    pub open spec fn animation_list(&self) -> Seq<AnimationRecord> {
        Seq::new(self.animations@.len(), |i: int| self.animations@[i]@)
    }

    /// Adds one scene entry for each item of `listing`, in order, all under
    /// `relative_path` and `target`.
    pub fn record_scenes(
        &mut self,
        listing: &Vec<(usize, Option<String>)>,
        relative_path: &str,
        target: AssetTarget,
    )
        ensures
            final(self).scene_list() == old(self).scene_list() + scene_records(
                listing.deep_view(),
                relative_path@,
                target,
            ),
            final(self).animation_list() == old(self).animation_list(),
    {
        let mut i: usize = 0;
        while i < listing.len()
            invariant
                0 <= i <= listing.len(),
                self.animations == old(self).animations,
                self.scene_list() == old(self).scene_list() + scene_records(
                    listing.deep_view(),
                    relative_path@,
                    target,
                ).take(i as int),
            decreases listing.len() - i,
        {
            let name = match &listing[i].1 {
                Some(n) => n.clone(),
                None => String::new(),
            };
            let ghost before = self.scene_list();
            self.scenes.push(
                SceneMetadata {
                    index: listing[i].0,
                    name,
                    relative_path: relative_path.to_owned(),
                    target,
                },
            );
            proof {
                let all = scene_records(listing.deep_view(), relative_path@, target);
                assert(self.scene_list() =~= before.push(all[i as int]));
            }
            i += 1;
        }
    }

    /// Adds one animation entry for each item of `listing`, in order, all
    /// under `relative_path`.
    pub fn record_animations(
        &mut self,
        listing: &Vec<(usize, Option<String>)>,
        relative_path: &str,
    )
        ensures
            final(self).animation_list() == old(self).animation_list() + animation_records(
                listing.deep_view(),
                relative_path@,
            ),
            final(self).scene_list() == old(self).scene_list(),
    {
        let mut i: usize = 0;
        while i < listing.len()
            invariant
                0 <= i <= listing.len(),
                self.scenes == old(self).scenes,
                self.animation_list() == old(self).animation_list() + animation_records(
                    listing.deep_view(),
                    relative_path@,
                ).take(i as int),
            decreases listing.len() - i,
        {
            let name = match &listing[i].1 {
                Some(n) => n.clone(),
                None => String::new(),
            };
            let ghost before = self.animation_list();
            self.animations.push(
                AnimationMetadata {
                    index: listing[i].0,
                    name,
                    relative_path: relative_path.to_owned(),
                },
            );
            proof {
                let all = animation_records(listing.deep_view(), relative_path@);
                assert(self.animation_list() =~= before.push(all[i as int]));
            }
            i += 1;
        }
    }
}

/// The scenes and then the animations of a model, each item with its index
/// and with its name where it has one.
pub type ModelListing = (Seq<(usize, Option<Seq<char>>)>, Seq<(usize, Option<Seq<char>>)>);

/// What `gltf`'s parser reads in `bytes`, as far as validation will rely on
/// it without testing: nothing where the bytes do not parse, else the number
/// of accessors and, for each primitive of each mesh in file order, the
/// accessor index that it gives for `POSITION`, where it gives one.
///
/// `bits` is the width of `usize`, on which the parser's size limits depend.
pub uninterp spec fn model_accessors(bytes: Seq<u8>, bits: u32) -> Option<
    (usize, Seq<Option<usize>>),
>;

/// What `gltf` makes of the bytes of a model file: nothing where they do not
/// parse and validate as a model, else the listing of the document.
///
/// `bits` is the width of `usize`, on which the validator's size limits
/// depend.
pub uninterp spec fn model_contents(bytes: Seq<u8>, bits: u32) -> Option<ModelListing>;

/// Whether every index of `listing` is its position.
pub open spec fn numbered(listing: Seq<(usize, Option<Seq<char>>)>) -> bool {
    forall|i: int| 0 <= i < listing.len() ==> (#[trigger] listing[i]).0 == i
}

/// Whether every `POSITION` index names one of `count` accessors.
pub open spec fn positions_in_range(count: usize, positions: Seq<Option<usize>>) -> bool {
    forall|i: int|
        0 <= i < positions.len() ==> (#[trigger] positions[i] matches Some(p) ==> p < count)
}

/// Whether the bytes parse and every `POSITION` index that they give names an
/// accessor that they hold. Only such bytes are handed on to validation,
/// which looks those accessors up.
pub open spec fn well_indexed(bytes: Seq<u8>, bits: u32) -> bool {
    model_accessors(bytes, bits) matches Some(a) && positions_in_range(a.0, a.1)
}

/// The listing that cataloguing `bytes` goes by: that of the model, where the
/// bytes are well indexed and make one.
pub open spec fn catalogued(bytes: Seq<u8>, bits: u32) -> Option<ModelListing> {
    if well_indexed(bytes, bits) {
        model_contents(bytes, bits)
    } else {
        None
    }
}

/// Parses `bytes` with `gltf::json::Root::from_slice` and copies out of the
/// parsed root the length of `accessors` and, primitive by primitive, the
/// value of the index stored under the `POSITION` attribute.
///
/// Claimed: the result is a function of the bytes and of the width of
/// `usize`, named [`model_accessors`]. What the bytes hold is not claimed.
#[verifier::external_body]
fn read_accessors(bytes: &[u8]) -> (accessors: Option<(usize, Vec<Option<usize>>)>)
    ensures
        accessors.deep_view() == model_accessors(bytes@, usize::BITS),
{
    let root = gltf::json::Root::from_slice(bytes).ok()?;
    let position = gltf::json::validation::Checked::Valid(gltf::json::mesh::Semantic::Positions);
    let primitives = root.meshes.iter().flat_map(|m| m.primitives.iter());
    let positions = primitives.map(|p| p.attributes.get(&position).map(|i| i.value())).collect();
    Some((root.accessors.len(), positions))
}

/// Validates what `gltf::json::Root::from_slice` parsed from `bytes` with
/// `gltf::Document::from_json`, and copies `index()` and `name()` out of what
/// `Document::scenes` and `Document::animations` walk over.
///
/// Required: a `POSITION` index in the bytes names an accessor in them.
/// Validation looks that accessor up without a test of its own, and would
/// stop the program on an index beyond the last accessor.
///
/// Claimed: the result is a function of the bytes and of the width of
/// `usize`, named [`model_contents`]; and each index is the item's position,
/// since both iterators number the items as they enumerate them. Which bytes
/// make a model, and what it holds, is not claimed.
#[verifier::external_body]
fn read_model(bytes: &[u8]) -> (contents: Option<
    (Vec<(usize, Option<String>)>, Vec<(usize, Option<String>)>),
>)
    requires
        model_accessors(bytes@, usize::BITS) matches Some(a) ==> positions_in_range(a.0, a.1),
    ensures
        contents.deep_view() == model_contents(bytes@, usize::BITS),
        contents matches Some(c) ==> numbered(c.0.deep_view()) && numbered(c.1.deep_view()),
{
    let root = gltf::json::Root::from_slice(bytes).ok()?;
    let document = gltf::Document::from_json(root).ok()?;
    let scenes = document.scenes().map(|s| (s.index(), s.name().map(|n| n.to_owned()))).collect();
    let animations =
        document.animations().map(|a| (a.index(), a.name().map(|n| n.to_owned()))).collect();
    Some((scenes, animations))
}

/// Whether every `POSITION` index in `positions` lies below `count`.
pub fn in_range(count: usize, positions: &Vec<Option<usize>>) -> (r: bool)
    ensures
        r == positions_in_range(count, positions@),
{
    let mut i: usize = 0;
    while i < positions.len()
        invariant
            0 <= i <= positions.len(),
            positions_in_range(count, positions@.take(i as int)),
        decreases positions.len() - i,
    {
        match positions[i] {
            Some(p) => {
                if p >= count {
                    return false;
                }
            },
            None => {},
        }
        proof {
            let longer = positions@.take(i + 1);
            assert forall|k: int| 0 <= k < longer.len() implies (
            #[trigger] longer[k] matches Some(p) ==> p < count) by {
                if k < i {
                    assert(positions@.take(i as int)[k] == longer[k]);
                }
            }
        }
        i += 1;
    }
    proof {
        assert(positions@.take(i as int) =~= positions@);
    }
    true
}

/// Parses `bytes`, tests that they are well indexed, and only then has them
/// validated and listed.
fn read_catalogued(bytes: &[u8]) -> (contents: Option<
    (Vec<(usize, Option<String>)>, Vec<(usize, Option<String>)>),
>)
    ensures
        contents.deep_view() == catalogued(bytes@, usize::BITS),
        contents matches Some(c) ==> numbered(c.0.deep_view()) && numbered(c.1.deep_view()),
{
    match read_accessors(bytes) {
        Some(accessors) => {
            proof {
                let held = accessors.1;
                assert(held.deep_view() =~= held@) by {
                    assert forall|i: int| 0 <= i < held@.len() implies held.deep_view()[i]
                        == held@[i] by {
                        assert(held.deep_view()[i] == held@[i].deep_view());
                    }
                }
            }
            if in_range(accessors.0, &accessors.1) {
                read_model(bytes)
            } else {
                None
            }
        },
        None => None,
    }
}

/// The scenes of a listing, none where there is no listing.
pub open spec fn scenes_of(contents: Option<ModelListing>) -> Seq<(usize, Option<Seq<char>>)> {
    match contents {
        Some(c) => c.0,
        None => Seq::empty(),
    }
}

/// The animations of a listing, none where there is no listing.
pub open spec fn animations_of(contents: Option<ModelListing>) -> Seq<(usize, Option<Seq<char>>)> {
    match contents {
        Some(c) => c.1,
        None => Seq::empty(),
    }
}

impl AssetMetadata {
    /// Catalogues the scenes of the model file `bytes`, found at
    /// `relative_path`.
    ///
    /// The result says whether the bytes were read as a model. They are not
    /// where they do not parse, where a `POSITION` index in them names no
    /// accessor, or where they do not validate; nothing is added then.
    /// Otherwise one entry is added for each scene of the model, numbered by
    /// position, as [`AssetMetadata::record_scenes`] adds them.
    pub fn document_scenes_in(&mut self, bytes: &[u8], relative_path: &str, target: AssetTarget) -> (read:
        bool)
        ensures
            read == catalogued(bytes@, usize::BITS) is Some,
            numbered(scenes_of(catalogued(bytes@, usize::BITS))),
            final(self).scene_list() == old(self).scene_list() + scene_records(
                scenes_of(catalogued(bytes@, usize::BITS)),
                relative_path@,
                target,
            ),
            final(self).animation_list() == old(self).animation_list(),
    {
        match read_catalogued(bytes) {
            Some(contents) => {
                self.record_scenes(&contents.0, relative_path, target);
                true
            },
            None => {
                assert(self.scene_list() + scene_records(
                    Seq::empty(),
                    relative_path@,
                    target,
                ) =~= self.scene_list());
                false
            },
        }
    }

    /// Catalogues the animations of the model file `bytes`, found at
    /// `relative_path`.
    ///
    /// The result says whether the bytes were read as a model, as for
    /// [`AssetMetadata::document_scenes_in`]; nothing is added where they
    /// were not. Otherwise one entry is added for each animation of the
    /// model, numbered by position, as
    /// [`AssetMetadata::record_animations`] adds them.
    pub fn document_animations_in(&mut self, bytes: &[u8], relative_path: &str) -> (read: bool)
        ensures
            read == catalogued(bytes@, usize::BITS) is Some,
            numbered(animations_of(catalogued(bytes@, usize::BITS))),
            final(self).animation_list() == old(self).animation_list() + animation_records(
                animations_of(catalogued(bytes@, usize::BITS)),
                relative_path@,
            ),
            final(self).scene_list() == old(self).scene_list(),
    {
        match read_catalogued(bytes) {
            Some(contents) => {
                self.record_animations(&contents.1, relative_path);
                true
            },
            None => {
                assert(self.animation_list() + animation_records(Seq::empty(), relative_path@)
                    =~= self.animation_list());
                false
            },
        }
    }
}

} // verus!
