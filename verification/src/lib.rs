//! The rules of a rhythm battle between two crabs: the note chart, note
//! spawning and judging, scoring, the fight, and the sound file format.

pub mod battle;
pub mod beat;
pub mod chart;
pub mod constants;
pub mod crab;
pub mod game;
pub mod input;
pub mod notes;
pub mod scoring;
pub mod states;
pub mod ui;
pub mod wav;
pub mod audio;
