//! A small smart-house library: a house owns named rooms, rooms list the
//! devices placed in them, and report providers render the state of their
//! devices together with the rooms in which the house locates them.

pub mod dev;
pub mod house;
pub mod provider;
pub mod room;
pub mod socket;
pub mod text;
pub mod thermometer;
