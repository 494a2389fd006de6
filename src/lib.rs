//! A to-do item in the todo.txt line format, extended with a linked note,
//! a recurrence rule and a flag, with its line codec, ordering and markup.
pub mod date;
pub mod markup;
pub mod order;
pub mod recurrence;
pub mod tags;
pub mod task;
