//! The territorial core of a planetary politics simulation: a planar
//! land/water surface, trees of nested divisions carved out of one another
//! without losing or doubling surface, and governments that move whole
//! territories between them by integration or annexation.
pub mod community;
pub mod division;
pub mod geometry;
pub mod government;
pub mod power;
pub mod role;
pub mod world;
