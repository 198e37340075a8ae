//! A field of circular bodies on a window-sized plane.
//!
//! The library holds the integer-valued parts of the simulation: where the
//! bodies are placed at start-up, the diagnostic line printed for each of
//! them, and the order in which body pairs are visited by the per-frame
//! integration step.
mod pairs;
mod spawn;
mod text;
mod world;

pub use pairs::{is_pair_of, pair_before, pair_schedule};
pub use spawn::{body_at, populate};
pub use text::{decimal, decimal_digits, decimal_text, digit_char, spawn_line, spawn_line_text};
pub use world::{in_spawn_area, SpawnedBody, CIRCLE_COUNT, HALF_HEIGHT, HALF_WIDTH, HEIGHT, WIDTH};
