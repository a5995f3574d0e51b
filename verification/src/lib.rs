//! The interaction layer of a two-player board-game front end.
//!
//! Pointer input is resolved to board squares, a selection state machine is
//! advanced click by click, and every decision that needs the rules engine is
//! handed out as a request for the surrounding program to perform.

pub mod controller;
pub mod error;
pub mod geometry;
pub mod layout;
pub mod position;
pub mod promotion;
pub mod render;
pub mod request;
pub mod selection;
pub mod square;
