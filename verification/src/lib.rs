//! Decision logic of a real-time sky renderer.
//!
//! The library holds the state machines and rules of the program: when a window may render, when
//! the configuration file is re-read and which configuration runs, how the view is projected and
//! steered, which surface format is used, which local time a longitude shows, how displays are
//! laid out, and how the star catalogue is cut into rows.

pub mod angle;
pub mod app;
pub mod clock;
pub mod config;
pub mod degrees;
pub mod display;
pub mod geometry;
pub mod meridian;
pub mod output;
pub mod projection;
pub mod renderer;
pub mod schedule;
pub mod stars;
pub mod text;
pub mod time;
pub mod time_control;
