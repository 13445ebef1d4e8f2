//! Verified core of a terminal task manager with a privileged helper service.
//!
//! The pages of the terminal program are built from [`rows`], which [`filtering`], [`listing`],
//! [`tree`], and [`window`] choose, order, and cut to the screen that [`layout`] divides.
//! [`state`] holds what the program shows; [`navigation`], [`refresh`], and [`input`] change
//! it; [`presentation`] and [`messages`] turn it into text. [`api`] and [`service`] are the
//! contract with the privileged service, [`system`] and [`wide`] the rules for talking to the
//! operating system. [`cli`], [`release`], [`updater`], and [`installation`] belong to the
//! helper programs.

pub mod api;
pub mod cli;
pub mod filtering;
pub mod history;
pub mod input;
pub mod installation;
pub mod layout;
pub mod listing;
pub mod messages;
pub mod model;
pub mod navigation;
pub mod presentation;
pub mod refresh;
pub mod release;
pub mod rows;
pub mod service;
pub mod sorting;
pub mod state;
pub mod system;
pub mod text;
pub mod tree;
pub mod updater;
pub mod wide;
pub mod window;
