//! A coffee maker that makes lattes on a line of five stages: coffee goes
//! from the bean hopper over the water tank to the espresso press, milk from
//! the milk tank to the frother. Before an order enters the line, every
//! subsystem is asked whether it is live and whether it holds enough for the
//! cup.
//!
//! - [`machine_components`]: the five subsystems, the probe that tells
//!   whether one answers in time, and the check of its stock.
//! - [`latency`]: the sources that the probes take their latencies from.
//! - [`message_based`]: the cup, the admission of an order by the checks on
//!   all five subsystems, the start of an order on both branches, and the
//!   service of a whole batch.
//! - [`stage`]: the worker of one stage as a machine of four states, which
//!   decides what its driver is to do next.
//! - [`link`]: the link between one stage and the next.
//! - [`station`] and [`pipeline`]: the line run on the calling thread, one
//!   station after the other.
//! - [`builder_based`]: a cup put together by hand.
//! - [`text`]: numbers written out for the lines that name a client.
//!
//! A program that runs each stage on a thread of its own drives the workers
//! of [`stage`] itself; all that it adds is the waiting.

pub mod builder_based;
pub mod latency;
pub mod link;
pub mod machine_components;
pub mod message_based;
pub mod pipeline;
pub mod stage;
pub mod station;
pub mod text;
