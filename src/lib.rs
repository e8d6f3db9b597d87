//! A stack of nested coordinate frames for a 2D renderer.
//!
//! The stack is never empty: it starts with one root frame, `push` duplicates
//! the top frame, `pop` discards it, and every read or write goes to the top
//! frame only. What a frame holds and how it maps points is up to the frame
//! type; the stack guarantees the scoping discipline around it.

mod frame_stack;

pub use frame_stack::{pushed, popped, with_top, with_tops, TransformStack};
pub use frame_stack::{lemma_push_duplicates_top, lemma_push_pop_isolation};
