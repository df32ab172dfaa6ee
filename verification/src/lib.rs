//! Procedural voxel-world core: a streaming grid of cubic terrain sectors.
//!
//! The library owns the world's logic: block storage and sector-local
//! coordinates, deterministic world generation, visible-face mesh
//! generation with cross-sector culling, the streaming scheduler's
//! resident map and pending-work set, frustum culling of sector bounds,
//! and axis-aligned collision resolution against solid blocks.

use vstd::prelude::*;

pub mod frustum;
pub mod mesh_gen;
pub mod pending;
pub mod terrain;
pub mod voxel;
pub mod world_gen;

verus! {

/// The length of one side of a cubic sector, **excluding** padding.
pub const SECTOR_SIZE: usize = 32;

/// The amount of padding on each side of a cubic side of a sector.
pub const SECTOR_PAD: usize = 1;

/// The length of a sector's side, including padding.
pub const SECTOR_SIZE_PAD: usize = SECTOR_PAD + SECTOR_SIZE + SECTOR_PAD;

/// The length of an array of blocks for a sector.
#[verifier::nonlinear]
pub const SECTOR_LEN: usize = SECTOR_SIZE_PAD * SECTOR_SIZE_PAD * SECTOR_SIZE_PAD;

} // verus!
