//! Text-to-mesh layout and the change detection that decides when a text
//! mesh has to be generated again.
//!
//! Lengths are fixed-point integers: heights and depths in micrometres,
//! outline coordinates in `1 / UNITS_PER_EM` of an em, and mesh positions in
//! `1 / UNITS_PER_EM` of a micrometre (an outline coordinate times a height).
pub mod layout;
pub mod mesh;
pub mod schedule;
pub mod text;

pub use layout::{
    get_x_offset, get_y_offset, get_z_offset, DepthLayout, HorizontalLayout, VerticalLayout,
    HALF_EM, UNITS_PER_EM,
};
pub use mesh::{assemble_mesh, bounding_box, Aabb, GeneratedMesh, OutlineVertex, Position};
pub use schedule::{GenerationError, GenerationState, PollAction, TickDecision};
pub use text::{MeshText, MeshTextFont};
