//! Keeps the renderable meshes of 3D text objects in step with their text and
//! with fonts that load in their own time.
//!
//! * [`state`] holds the readiness state of one text object: what is known of
//!   its font, and the throttle of the missing-font diagnostic.
//! * [`object`] holds the record kept beside a text object, with the two
//!   change flags that schedule it for a pass, and the font events.
//! * [`watcher`] is the font-ready watcher.
//! * [`mesh`] writes generated geometry into bevy meshes.
//! * [`sync`] is the synchronizer step.
//! * [`laws`] states what holds over the whole life of an object.

pub mod laws;
pub mod mesh;
pub mod object;
pub mod state;
pub mod sync;
pub mod watcher;

pub use mesh::{apply_mesh, build_mesh, MeshData};
pub use object::{FontEvent, TextObject};
pub use state::{TextMeshState, FONT_MISSING_WARNING, WARNING_THRESHOLD};
pub use sync::{text_mesh, MaterialPlan, SyncAction, TextMaterial};
pub use watcher::font_loaded;
