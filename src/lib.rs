//! Decision logic of a concurrent media playback pipeline.
//!
//! A packet router fans the packets of a demultiplexed container out to one
//! decode worker per stream kind; the workers feed a single aggregation channel
//! that a presentation loop drains. Each stage is a state machine here: the
//! surrounding program performs the actions it returns (reading, sending,
//! decoding, presenting) and reports what happened as the next event.
use vstd::prelude::*;

pub mod stream;
pub mod routes;
pub mod worker;
pub mod lifecycle;
pub mod router;
pub mod presenter;
pub mod frame;
