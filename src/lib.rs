//! Grandfather-father-son rotation of dated backups: a bounded classifier
//! that keeps monthly, weekly and daily tiers, and a planner that turns the
//! difference between what exists and what is kept into removal actions.

pub mod timestamp;
pub mod dated;
pub mod file;
pub mod rotationplan;
pub mod rotator;
pub mod action;
pub mod plan;
pub mod planner;
pub mod planexecutor;
pub mod args;
