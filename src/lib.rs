//! A single-user todo list: the item entity, the in-memory storage engine
//! with its binary snapshot, and the controller that turns key presses into
//! screen transitions and storage mutations.

pub mod app;
pub mod database;
pub mod detail_view;
pub mod dialog;
pub mod events;
pub mod main_view;
pub mod todo;
