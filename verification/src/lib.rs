//! Orchestration core of a desktop status bar.
//!
//! A status bar is made of strips. A strip holds components in three
//! regions, left, middle and right; a component is built in or backed by a
//! plugin module. This crate holds the rules by which the bar works: where
//! components are placed, how input events travel through them, how their
//! lives run from registration to shutdown, and when a plugin module is
//! opened and closed. Windows, threads, sockets and dynamic libraries are
//! left to the program around it, which reports what happened and carries
//! out what the rules decide.

pub mod color;
pub mod component;
pub mod config;
pub mod context;
pub mod event;
pub mod hex_parser;
pub mod layout;
pub mod lifecycle;
pub mod manager;
pub mod pattern;
pub mod plugin;
pub mod plugin_abi;
pub mod protocol;
pub mod rect;
pub mod status_bar;
pub mod styles;
pub mod text;
pub mod window;
pub mod windows_api;
