//! Rule engine for a tile-sliding maze board game: tiles with open
//! directions sit on a grid, players step between tiles whose facing
//! sides are both open, and a spare tile orbiting the border is pushed
//! into a row or column to reshape the maze. Turns alternate between a
//! push phase and a move phase while each player collects an assigned
//! sequence of treasures.

pub mod actors;
pub mod board;
pub mod boards_repository;
pub mod movement;
pub mod phases;
pub mod player;
pub mod push;
pub mod treasure;
pub mod rng;
pub mod tile;
