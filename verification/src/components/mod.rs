//! Components shared by the objects of a map.

pub mod ghost_influence;
