//! A goal-oriented action planner: world states are named collections of
//! typed fields, goals are per-field requirements with a distance-to-
//! satisfaction measure, and a best-first search assembles a minimum-cost
//! sequence of actions whose final state satisfies the goal.

pub mod action;
pub mod distance;
pub mod field;
pub mod goal;
pub mod kv;
pub mod planner;
pub mod requirement;
pub mod scenarios;
pub mod state;
