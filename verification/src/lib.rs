//! Decision core of a physics-driven character: the actions a character
//! receives, the state machine that honours them, the rules that switch the
//! floating suspension, and the catalogue of the assets that dress it.

pub mod actions;
pub mod assets;
pub mod controller;
pub mod input;
pub mod paths;
pub mod rig;
pub mod scripted;
pub mod walk;

pub use actions::{play_action_animation, AnimationPlan, CharacterAction};
pub use assets::{AnimationMetadata, AssetMetadata, AssetTarget, SceneMetadata};
pub use controller::{CharacterController, CharacterState, Probe, Slope, TickPlan};
pub use input::{process_input, Trigger};
pub use paths::{get_relative_path, is_model_file, ASSET_DIR};
pub use rig::RigPart;
pub use scripted::{ScriptedIter, ScriptedMutIter};
pub use walk::after_reading;
