//! A terminal snake game core: a player-controlled segment moves across a
//! bounded grid, eating food to grow, with wall or self collision resetting
//! the run. Rendering is modelled as a sequence of drawing commands that a
//! terminal front end replays.

pub mod graphics;
pub mod player;
pub mod game;
