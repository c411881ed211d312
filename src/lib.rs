//! Camera-control mouse mappings read from a loosely typed settings tree,
//! with one diagnostic for every fragment that is rejected or ignored.

pub mod vocabulary;
pub mod tree;
pub mod diagnostic;
pub mod mapping;
pub mod camera;
pub mod lemmas;
