//! Core of a personal task manager: a recurrence calculator that advances a
//! due date along a repeat rule, a reminder scheduler that decides which tasks
//! must fire right now, an in-memory task store with normalization invariants,
//! and the pure logic of a durable, backup-rotating storage layer.

pub mod calendar;
pub mod codec;
pub mod docio;
pub mod docjson;
pub mod localtime;
pub mod models;
pub mod repeat;
pub mod scheduler;
pub mod state;
pub mod storage;
