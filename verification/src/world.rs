//! The simulated world: items, entities, the chunk they live in, dialogue,
//! and the world that owns them.

pub mod action;
pub mod allegiance;
pub mod conditions;
pub mod bounds;
pub mod chunk;
pub mod item;
pub mod decision;
pub mod dialogue;
pub mod entity;
pub mod log;
pub mod sight;
pub mod turn;
pub mod world;
