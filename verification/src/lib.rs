//! Layout generator for a photo-collage composer: picks square tile origins
//! inside a canvas by rejection sampling so that no two tiles, inflated by a
//! safety margin, overlap, and maps each accepted tile to its grid slot.

pub mod generator;
pub mod geometry;
pub mod grid;
