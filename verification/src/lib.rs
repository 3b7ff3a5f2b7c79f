//! Timing and scheduling core of a desktop auto-clicker.
//!
//! The crate decides *when* a synthetic click fires and how start and stop
//! requests become one consistent running state. It performs no input or
//! output of its own: the program around it reads the clock, injects the
//! click and moves event lines between threads, and asks this crate what to
//! do next.
//!
//! * [`config`]: the interval settings and the mode selector.
//! * [`policy`]: the delay before the next click, fixed or drawn at random.
//! * [`entropy`]: the random source of the jitter mode.
//! * [`runner`]: the decisions of the loop that fires the clicks.
//! * [`cadence`]: what holds of a runner over a whole run.
//! * [`controller`]: the toggle that starts and stops the runners.
//! * [`events`]: the lines that runners and the controller log.
//! * [`log`]: the append-only log of those lines.

pub mod cadence;
pub mod config;
pub mod controller;
pub mod entropy;
pub mod events;
pub mod log;
pub mod policy;
pub mod runner;
