//! Core of an interactive terminal front-end: event dispatch, a multi-line
//! text buffer, a submit-on-Enter prompt and the bookkeeping of
//! pseudo-terminal backed jobs.

pub mod application;
pub mod event;
pub mod geometry;
pub mod handler;
pub mod job;
pub mod layout;
pub mod prompt;
pub mod text_area;
pub mod text_model;
