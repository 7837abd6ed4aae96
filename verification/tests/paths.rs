use okfd::{get_relative_path, is_model_file, RigPart, ASSET_DIR};

#[test]
fn model_files_end_in_gltf_or_glb() {
    assert!(is_model_file("base.gltf"));
    assert!(is_model_file("base.glb"));
    assert!(is_model_file(".gltf"));
    assert!(is_model_file(".glb"));
    assert!(is_model_file("a.glb.gltf"));
    assert!(!is_model_file("base.gltf.bak"));
    assert!(!is_model_file("base.GLTF"));
    assert!(!is_model_file("gltf"));
    assert!(!is_model_file("glb"));
    assert!(!is_model_file(""));
    assert!(!is_model_file("base.png"));
}

#[test]
fn asset_directory_is_seven_bytes() {
    assert_eq!(ASSET_DIR, "assets/");
    assert_eq!(ASSET_DIR.len(), 7);
}

#[test]
fn relative_path_drops_the_asset_directory() {
    assert_eq!(
        get_relative_path("assets/character/head/base.gltf", "assets/character/head"),
        Some(String::from("character/head/base.gltf"))
    );
}

#[test]
fn relative_path_ignores_a_leading_dot_slash_of_the_root() {
    assert_eq!(
        get_relative_path("./assets/character/body/x.glb", "./assets/character/body"),
        Some(String::from("character/body/x.glb"))
    );
    assert_eq!(
        get_relative_path("/srv/game/assets/character/body/x.glb", "./assets/character"),
        Some(String::from("character/body/x.glb"))
    );
}

#[test]
fn relative_path_cuts_at_the_first_occurrence() {
    assert_eq!(get_relative_path("abc/abc/1234567", "abc"), Some(String::from("/1234567")));
    assert_eq!(get_relative_path("xxabcdefghijk", "abc"), Some(String::from("hijk")));
}

#[test]
fn relative_path_of_an_empty_root_cuts_at_the_start() {
    assert_eq!(get_relative_path("assets/a.gltf", ""), Some(String::from("a.gltf")));
    assert_eq!(get_relative_path("assets/a.gltf", "./"), Some(String::from("a.gltf")));
    assert_eq!(get_relative_path("1234567", ""), Some(String::new()));
}

#[test]
fn relative_path_needs_the_root_in_the_path() {
    assert_eq!(get_relative_path("assets/character/head/base.gltf", "assets/body"), None);
    assert_eq!(get_relative_path("", "assets"), None);
}

#[test]
fn relative_path_is_none_where_the_path_is_too_short_to_cut() {
    assert_eq!(get_relative_path("ab", "ab"), None);
    assert_eq!(get_relative_path("123456", ""), None);
}

#[test]
fn relative_path_is_none_where_the_cut_splits_a_character() {
    assert_eq!(get_relative_path("r12345\u{e9}", "r"), None);
    assert_eq!(get_relative_path("r123456\u{e9}", "r"), Some(String::from("\u{e9}")));
}

#[test]
fn bones_with_colliders_are_found_by_name() {
    assert_eq!(RigPart::from_name("head"), Some(RigPart::Head));
    assert_eq!(RigPart::from_name("neck"), Some(RigPart::Neck));
    assert_eq!(RigPart::from_name("chest"), Some(RigPart::Chest));
    assert_eq!(RigPart::from_name("waist"), Some(RigPart::Waist));
    assert_eq!(RigPart::from_name("pelvis"), Some(RigPart::Pelvis));
    assert_eq!(RigPart::from_name("left_breast"), Some(RigPart::Breast));
    assert_eq!(RigPart::from_name("right_breast"), Some(RigPart::Breast));
    assert_eq!(RigPart::from_name("left_shoulder"), Some(RigPart::Shoulder));
    assert_eq!(RigPart::from_name("right_shoulder"), Some(RigPart::Shoulder));
    assert_eq!(RigPart::from_name("left_elbow"), Some(RigPart::Elbow));
    assert_eq!(RigPart::from_name("right_elbow"), Some(RigPart::Elbow));
    assert_eq!(RigPart::from_name("left_hip"), Some(RigPart::Hip));
    assert_eq!(RigPart::from_name("right_hip"), Some(RigPart::Hip));
    assert_eq!(RigPart::from_name("left_knee"), Some(RigPart::Knee));
    assert_eq!(RigPart::from_name("right_knee"), Some(RigPart::Knee));
}

#[test]
fn other_bones_carry_no_collider() {
    assert_eq!(RigPart::from_name(""), None);
    assert_eq!(RigPart::from_name("Head"), None);
    assert_eq!(RigPart::from_name("head "), None);
    assert_eq!(RigPart::from_name("hea"), None);
    assert_eq!(RigPart::from_name("left_hand"), None);
    assert_eq!(RigPart::from_name("left_foot"), None);
    assert_eq!(RigPart::from_name("knee"), None);
}
