use vstd::prelude::*;

verus! {

/// The stateful stage of a pipeline: it turns one input item into one output
/// item or an error, and is told of errors and of the end of its input.
///
/// A driver owns the processor for a whole run. It awaits each future that
/// `process` returns before it pulls the next item, so at most one item is in
/// flight at any time.
pub trait Processor where
    Self: Sized,
    Self::ResultFuture: core::future::Future<Output = Result<Self::ResultItem, Self::Error>>,
{
    type Item;
    type Error;
    type ResultItem;
    /// Resolves to `Ok` with the output for the item, or to `Err`.
    type ResultFuture;

    /// Starts the transformation of one item.
    fn process(&mut self, item: Self::Item) -> Self::ResultFuture;

    /// Called once, when every source is exhausted; consumes the processor.
    fn stopped(self) {
    }

    /// Declared for processors that want to hear of a fatal failure; no
    /// driver of this crate calls it.
    fn stopped_with_error(error: Self::Error) {
    }

    /// Called for each failure of a source, of `process` or of a sink flush;
    /// the run goes on afterwards.
    fn on_error(&mut self, error: Self::Error) {
    }
}

} // verus!
