//! The geometry-construction input value: an ordered list of vertices and an
//! optional ordered list of indices.

use vstd::prelude::*;

use crate::vertex::Vertex;

verus! {

/// A plain pair of vertex data and optional index data, consumed by mesh
/// construction and not retained. When `indices` is `None`, mesh construction
/// generates the reversed trivial index sequence over all vertices.
#[derive(Clone, Debug)]
pub struct ProspectShape {
    pub vertices: Vec<Vertex>,
    pub indices: Option<Vec<u32>>,
}

} // verus!
