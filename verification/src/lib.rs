//! A small command-line engine that manages named "indexes": dynamically
//! named tables with a fixed `key`/`data` schema, kept in a SQLite file.
//! Verbs are dispatched to handlers, positional arguments are validated and
//! bound to named parameters, and every table operation is stated against a
//! mathematical model of the store.

pub mod tool;
pub mod validation;
pub mod command;
pub mod outcome;
pub mod store;
pub mod gui;
pub mod edit;
pub mod manage;
pub mod help;
pub mod router;
