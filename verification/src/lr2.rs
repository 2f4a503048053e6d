//! The game-content side of the renderer's input: the per-session state a
//! content controller tracks, and the surface records the content modules
//! shape their models into.

use vstd::prelude::*;

verus! {

/// The tracked state of a content session. The controller keeps its own
/// loaded-model handle; the state itself carries nothing yet.
#[derive(Clone, Copy, Debug, PartialEq, Eq, Structural)]
pub struct LR2State {}

/// The content definition: ties the tracked state to its controller.
#[derive(Clone, Copy, Debug, PartialEq, Eq, Structural)]
pub struct LR2Content {}

/// One drawable surface of a game model: the same layout, vertex bytes and
/// indices a mesh definition carries.
#[derive(Clone, Debug)]
pub struct Surface {
    pub stride: u32,
    pub vector_offset: Option<u32>,
    pub normal_offset: Option<u32>,
    pub colour_offset: Option<u32>,
    pub texcoords_offsets: Vec<u32>,
    pub vertex_buffer: Vec<u8>,
    pub index_buffer: Vec<u16>,
}

/// A model of the older decoder: its surfaces, in order.
pub type Model = Vec<Surface>;

} // verus!
