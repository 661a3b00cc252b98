//! Motions over the text of one line, and the ranges that they produce.

pub mod movement;
pub mod movement_commands;
pub mod selection;
