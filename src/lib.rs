//! A stopwatch that records finished work sessions as rows of a CSV log,
//! with a small INI settings store and the state machine that drives both.
pub mod application;
pub mod configuration_repository;
pub mod csv_repository;
pub mod stopwatch;
pub mod task_record;
pub mod text;
pub mod time_rs;
