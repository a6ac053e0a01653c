//! The transform catalog.

pub mod arpeggio_transform;
pub mod distribute_transform;
pub mod filter_transform;
pub mod held_notes;
pub mod inspect_transform;
pub mod map_transform;
pub mod matched_note_off;
pub mod mirror_transform;
pub mod output_transform;
pub mod transform;
pub mod wasm_transform;

pub use arpeggio_transform::ArpeggioTransform;
pub use distribute_transform::DistributeTransform;
pub use filter_transform::{FilterTransform, FilterTransformOptions};
pub use inspect_transform::InspectTransform;
pub use map_transform::{MapTransform, MapTransformOptions};
pub use mirror_transform::MirrorTransform;
pub use output_transform::OutputTransform;
pub use transform::Transform;
