//! An exact, integer-only arithmetic core for an incremental simulation.
//!
//! The engine tracks accumulating quantities (saved emissions, people,
//! research points, printed flyers) over a continuously running tick clock.
//! Everything is fixed-point integer arithmetic with the global denominator
//! [`duration::GRANULARITY`], so repeated, irregularly sized time increments
//! never drift: integrating a rate over many small steps gives exactly the
//! same total as one big step.

pub mod decimal;
pub mod duration;
pub mod grid;
pub mod menu;
pub mod message;
pub mod quantity;
pub mod rate;
pub mod world;

pub use duration::Duration;
pub use duration::GRANULARITY;
