//! Simulation core of a side-scrolling endless runner: the avatar's state
//! machine, the obstacles it lands on or runs into, the generator that keeps
//! obstacles coming, and the lifecycle of a game. A small line tokenizer for
//! HTML templates lives beside it.

pub mod engine;
pub mod game;
pub mod segments;
pub mod template_engine;
