//! A tick-driven world of entities living in bounded chunks: the deterministic
//! tick generator, the geometry of coordinates and directions, the entity and
//! chunk model, the decision engine of entities with agency, and the dialogue
//! state machine; and, around the world, the state of the windows of the game
//! and of its editor, without the drawing.
//!
//! Numbers that are not whole are counted in fixed parts: distances in
//! thousandths, weights and scores in millionths, shares of the sight in
//! hundredths. What is left of a sight behind many obstacles is counted
//! without rounding, and a score is rounded down once.

pub mod chance;
pub mod constants;
pub mod digits;
pub mod distance;
pub mod error;
pub mod ordering;
pub mod quark;
pub mod ray;
pub mod rng;
pub mod store;
pub mod text;
pub mod types;
pub mod ui;
pub mod utils;
pub mod world;
