//! Simulation core of a terminal snake game: a deterministic, tick-driven
//! state machine that tracks a growing body on a bounded grid, consumes
//! directional input, detects collisions, and spawns food.

pub mod food;
pub mod geometry;
pub mod scheduler;
pub mod snake;
pub mod tick;

pub use food::Food;
pub use scheduler::Scheduler;
pub use snake::KeyPress;
pub use snake::Snake;
pub use geometry::Direction;
pub use geometry::Position;
pub use geometry::Size;
pub use tick::TickResult;
