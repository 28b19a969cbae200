//! Core of a small real-time bakery simulation: fixed-timestep physics with
//! axis-aligned collision resolution, a jump-lock state machine, trigger-zone
//! detection, a slot-based inventory with multiset recipe matching, and a
//! scored, timed session with randomly re-rolled demand.
//!
//! Everything here works on plain integer coordinates and enumerated item
//! types; rendering, input devices and entity bookkeeping are left to the
//! caller, which drives these systems once per frame and carries their
//! outcomes back into its own world representation.

pub mod collision;
pub mod frame;
pub mod geom;
pub mod input;
pub mod inventory;
pub mod items;
pub mod jump;
pub mod physics;
pub mod recipes;
pub mod scene;
pub mod session;
