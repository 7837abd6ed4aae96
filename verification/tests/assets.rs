use okfd::assets::in_range;
use okfd::{AssetMetadata, AssetTarget};

const TWO_SCENES: &str = "{\"asset\":{\"version\":\"2.0\"},\"scenes\":[{\"name\":\"Day\",\"nodes\":[]},{\"nodes\":[]}]}";

#[test]
fn default_target_is_misc_and_catalogue_starts_empty() {
    assert_eq!(AssetTarget::default(), AssetTarget::Misc);
    let m = AssetMetadata::default();
    assert!(m.scenes.is_empty());
    assert!(m.animations.is_empty());
}

#[test]
fn recorded_scenes_keep_index_name_path_and_target() {
    let mut m = AssetMetadata::default();
    let listing = vec![(0, Some(String::from("Day"))), (1, None), (2, Some(String::from("Night")))];
    m.record_scenes(&listing, "character/head/base.gltf", AssetTarget::Head);
    assert_eq!(m.scenes.len(), 3);
    assert_eq!(m.scenes[0].index, 0);
    assert_eq!(m.scenes[0].name, "Day");
    assert_eq!(m.scenes[1].index, 1);
    assert_eq!(m.scenes[1].name, "");
    assert_eq!(m.scenes[2].index, 2);
    assert_eq!(m.scenes[2].name, "Night");
    for scene in &m.scenes {
        assert_eq!(scene.relative_path, "character/head/base.gltf");
        assert_eq!(scene.target, AssetTarget::Head);
    }
    assert!(m.animations.is_empty());
}

#[test]
fn recording_appends_after_what_is_there() {
    let mut m = AssetMetadata::default();
    m.record_scenes(&vec![(0, Some(String::from("A")))], "a.gltf", AssetTarget::Body);
    m.record_animations(&vec![(0, Some(String::from("Walk"))), (1, None)], "a.gltf");
    m.record_scenes(&vec![(4, None)], "b.gltf", AssetTarget::Misc);
    assert_eq!(m.scenes.len(), 2);
    assert_eq!(m.scenes[0].name, "A");
    assert_eq!(m.scenes[0].target, AssetTarget::Body);
    assert_eq!(m.scenes[1].index, 4);
    assert_eq!(m.scenes[1].name, "");
    assert_eq!(m.scenes[1].relative_path, "b.gltf");
    assert_eq!(m.scenes[1].target, AssetTarget::Misc);
    assert_eq!(m.animations.len(), 2);
    assert_eq!(m.animations[0].index, 0);
    assert_eq!(m.animations[0].name, "Walk");
    assert_eq!(m.animations[0].relative_path, "a.gltf");
    assert_eq!(m.animations[1].index, 1);
    assert_eq!(m.animations[1].name, "");
}

#[test]
fn empty_listing_records_nothing() {
    let mut m = AssetMetadata::default();
    m.record_scenes(&Vec::new(), "a.gltf", AssetTarget::Head);
    m.record_animations(&Vec::new(), "a.gltf");
    assert!(m.scenes.is_empty());
    assert!(m.animations.is_empty());
}

#[test]
fn scenes_of_a_model_file_are_catalogued_in_file_order() {
    let mut m = AssetMetadata::default();
    assert!(m.document_scenes_in(TWO_SCENES.as_bytes(), "character/body/base.gltf", AssetTarget::Body));
    assert_eq!(m.scenes.len(), 2);
    assert_eq!(m.scenes[0].index, 0);
    assert_eq!(m.scenes[0].name, "Day");
    assert_eq!(m.scenes[1].index, 1);
    assert_eq!(m.scenes[1].name, "");
    assert_eq!(m.scenes[1].relative_path, "character/body/base.gltf");
    assert_eq!(m.scenes[1].target, AssetTarget::Body);
    assert!(m.animations.is_empty());
}

const TWO_ANIMATIONS: &str = "{\"asset\":{\"version\":\"2.0\"},\"animations\":[{\"name\":\"Walk\",\"channels\":[],\"samplers\":[]},{\"channels\":[],\"samplers\":[]}]}";

#[test]
fn animations_of_a_model_file_are_catalogued_in_file_order() {
    let mut m = AssetMetadata::default();
    assert!(m.document_animations_in(TWO_ANIMATIONS.as_bytes(), "character/walk.gltf"));
    assert_eq!(m.animations.len(), 2);
    assert_eq!(m.animations[0].index, 0);
    assert_eq!(m.animations[0].name, "Walk");
    assert_eq!(m.animations[0].relative_path, "character/walk.gltf");
    assert_eq!(m.animations[1].index, 1);
    assert_eq!(m.animations[1].name, "");
    assert_eq!(m.animations[1].relative_path, "character/walk.gltf");
    assert!(m.scenes.is_empty());
    assert!(m.document_scenes_in(TWO_ANIMATIONS.as_bytes(), "character/walk.gltf", AssetTarget::Misc));
    assert!(m.scenes.is_empty());
}

#[test]
fn model_file_without_animations_adds_none() {
    let mut m = AssetMetadata::default();
    assert!(m.document_animations_in(TWO_SCENES.as_bytes(), "character/body/base.gltf"));
    assert!(m.animations.is_empty());
    assert!(m.scenes.is_empty());
}

#[test]
fn bytes_that_are_no_model_add_nothing() {
    let mut m = AssetMetadata::default();
    m.record_scenes(&vec![(0, None)], "kept.gltf", AssetTarget::Head);
    assert!(!m.document_scenes_in(b"not a model", "x.gltf", AssetTarget::Head));
    assert!(!m.document_animations_in(b"", "x.gltf"));
    assert!(!m.document_scenes_in(b"{\"scenes\":[{\"nodes\":[]}]}", "x.gltf", AssetTarget::Head));
    assert!(!m.document_scenes_in(
        b"{\"asset\":{\"version\":\"2.0\"},\"scenes\":[{\"nodes\":[3]}]}",
        "x.gltf",
        AssetTarget::Head
    ));
    assert_eq!(m.scenes.len(), 1);
    assert_eq!(m.scenes[0].relative_path, "kept.gltf");
    assert!(m.animations.is_empty());
}

const POSITION_WITHOUT_ACCESSOR: &str = "{\"asset\":{\"version\":\"2.0\"},\"meshes\":[{\"primitives\":[{\"attributes\":{\"POSITION\":0}}]}],\"scenes\":[{\"name\":\"Day\",\"nodes\":[]}]}";

const POSITION_BEYOND_ACCESSORS: &str = "{\"asset\":{\"version\":\"2.0\"},\"buffers\":[{\"byteLength\":12}],\"bufferViews\":[{\"buffer\":0,\"byteLength\":12}],\"accessors\":[{\"bufferView\":0,\"componentType\":5126,\"count\":1,\"type\":\"VEC3\",\"min\":[0,0,0],\"max\":[1,1,1]}],\"meshes\":[{\"primitives\":[{\"attributes\":{\"POSITION\":0}},{\"attributes\":{\"POSITION\":1}}]}],\"scenes\":[{\"nodes\":[]}]}";

const POSITION_WITH_ACCESSOR: &str = "{\"asset\":{\"version\":\"2.0\"},\"buffers\":[{\"byteLength\":12}],\"bufferViews\":[{\"buffer\":0,\"byteLength\":12}],\"accessors\":[{\"bufferView\":0,\"componentType\":5126,\"count\":1,\"type\":\"VEC3\",\"min\":[0,0,0],\"max\":[1,1,1]}],\"meshes\":[{\"primitives\":[{\"attributes\":{\"POSITION\":0}},{\"attributes\":{\"NORMAL\":0,\"POSITION\":0}}]}],\"scenes\":[{\"name\":\"Mesh\",\"nodes\":[]}],\"animations\":[{\"name\":\"Turn\",\"channels\":[],\"samplers\":[]}]}";

#[test]
fn position_index_without_accessors_is_no_model() {
    let mut m = AssetMetadata::default();
    assert!(!m.document_scenes_in(POSITION_WITHOUT_ACCESSOR.as_bytes(), "x.gltf", AssetTarget::Head));
    assert!(!m.document_animations_in(POSITION_WITHOUT_ACCESSOR.as_bytes(), "x.gltf"));
    assert!(m.scenes.is_empty());
    assert!(m.animations.is_empty());
}

#[test]
fn position_index_beyond_the_accessors_is_no_model() {
    let mut m = AssetMetadata::default();
    assert!(!m.document_scenes_in(POSITION_BEYOND_ACCESSORS.as_bytes(), "x.gltf", AssetTarget::Head));
    assert!(!m.document_animations_in(POSITION_BEYOND_ACCESSORS.as_bytes(), "x.gltf"));
    assert!(m.scenes.is_empty());
    assert!(m.animations.is_empty());
}

#[test]
fn position_index_of_an_accessor_is_read() {
    let mut m = AssetMetadata::default();
    assert!(m.document_scenes_in(POSITION_WITH_ACCESSOR.as_bytes(), "mesh.gltf", AssetTarget::Body));
    assert!(m.document_animations_in(POSITION_WITH_ACCESSOR.as_bytes(), "mesh.gltf"));
    assert_eq!(m.scenes.len(), 1);
    assert_eq!(m.scenes[0].index, 0);
    assert_eq!(m.scenes[0].name, "Mesh");
    assert_eq!(m.animations.len(), 1);
    assert_eq!(m.animations[0].index, 0);
    assert_eq!(m.animations[0].name, "Turn");
}

#[test]
fn indices_are_in_range_when_each_lies_below_the_count() {
    assert!(in_range(0, &Vec::new()));
    assert!(in_range(0, &vec![None, None]));
    assert!(in_range(1, &vec![Some(0), None, Some(0)]));
    assert!(in_range(3, &vec![Some(2), Some(0), Some(1)]));
    assert!(!in_range(0, &vec![Some(0)]));
    assert!(!in_range(1, &vec![Some(0), Some(1)]));
    assert!(!in_range(2, &vec![None, Some(2), Some(0)]));
    assert!(!in_range(5, &vec![Some(usize::MAX)]));
}
