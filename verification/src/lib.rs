//! State model and compositor of a live terminal dashboard.
//!
//! The dashboard shows a scrolling chart of a synthetic signal, a panel of
//! binary noise, a rotating event list and a progress gauge. This crate holds
//! the state, its per-tick transition, the composition of a state snapshot
//! into a tree of panels, and the decisions of the render loop. Quantities
//! that the display treats as real numbers (times, chart bounds) are held
//! as integer thousandths.

pub mod chart;
pub mod compositor;
pub mod events;
pub mod layout;
pub mod noise;
pub mod panels;
pub mod render_loop;
pub mod signal;
pub mod state;
pub mod text;
pub mod timeline;
