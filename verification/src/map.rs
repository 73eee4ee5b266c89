//! The long-term map of the world: what names a tile, and what a tile holds.

use vstd::prelude::*;

verus! {

/// The layers of the map.
#[derive(Clone, Copy, Debug, PartialEq, Eq, Structural)]
pub enum Layer {
    Splats,
    Mesh,
    Occ,
}

/// The name of a tile: its level of detail, its place and its layer.
#[derive(Clone, Debug)]
pub struct TileId {
    pub lod: u8,
    pub x: i32,
    pub y: i32,
    pub z: i32,
    pub layer: Layer,
}

/// What a tile holds: a compressed payload.
#[derive(Clone, Debug)]
pub struct TileBlob {
    pub data: Vec<u8>,
}

} // verus!
