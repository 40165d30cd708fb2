//! Game rules of a circular-track dodging game: lane arithmetic, the lane
//! queues that hold obstacles, obstacle patterns and the cycle in which they
//! spawn, key states and steering, the game-state machine, the bookkeeping of
//! the rate counters and of the renderer's obstacle slots, the size of the
//! drawing surface, and the assembly of shader modules from their source text.

pub mod lanes;
pub mod track;
pub mod pattern;
pub mod input;
pub mod state;
pub mod samples;
pub mod uniforms;
pub mod shader;
pub mod surface;
