//! Fan-in stream processing with a single sink.
//!
//! Any number of sources are staged in a [`Builder`], merged, and fed item by
//! item to one stateful [`Processor`]; each output goes to one sink, which is
//! flushed before the next item is pulled. Failures of a source, of the
//! processor and of a flush go to the processor's `on_error`, and the run goes
//! on until every source is exhausted.
//!
//! The decisions of a run are made by a [`Driver`]: it is told what came of
//! each pull, transformation, send, flush or report, and answers with the next
//! [`Action`]. The caller performs the actions, so the driver itself awaits
//! nothing. The `lemma_*` proof functions state what holds of every sequence
//! of events that a fresh driver accepts in turn.
use vstd::prelude::*;

mod builder;
mod driver;
mod processor;
mod trace;

pub use builder::Builder;
pub use driver::{accepts, step, Action, Driver, Event, Phase};
pub use processor::Processor;
pub use trace::{
    actions, is_run, lemma_order_kept, lemma_process_error_reported, lemma_send_then_flush_then_pull,
    lemma_source_error_reported, lemma_stop_is_last, phase_before, processed_items, produced_outputs,
    pulled_items, sent_outputs,
};

verus! {

/// A unit marker type; it carries no state.
pub struct Handle;

} // verus!
