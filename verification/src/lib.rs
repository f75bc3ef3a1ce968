//! Turn-based grid-world core of a terminal roguelike: actors on a bounded
//! grid, their movement strategies, the layered maps and the game-state
//! machine that sequences turns.

pub mod actor;
pub mod character;
pub mod game;
pub mod input;
pub mod maps;
pub mod movement;
pub mod npc;
pub mod rendering;
pub mod util;
pub mod window;
