//! A small task-management domain: validated value objects, the `Task` entity,
//! a repository contract with an in-memory store, and the use cases built on them.
//!
//! Contracts speak of plain values. A text is the sequence of its characters,
//! a task is a [`domain::TaskView`], and a repository is the map
//! [`domain::Records`] from the text of an id to the task stored under it.
//!
//! Two things are taken on trust, each behind one private function: that a
//! fresh id is a canonical random UUID, which `uuid` draws, and how an instant
//! reads as text, which `chrono` decides. Everything else is proved.

pub mod application;
pub mod domain;
pub mod infrastructure;
