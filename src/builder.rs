use vstd::prelude::*;

verus! {

/// The sources staged for the next run, in the order they were added.
///
/// A run drains them: each source is merged into exactly one run.
pub struct Builder<S> {
    streams: Vec<S>,
}

impl<S> Builder<S> {
    pub closed spec fn staged(&self) -> Seq<S> {
        self.streams@
    }

    /// A builder with no source staged.
    pub fn new() -> (b: Self)
        ensures
            b.staged() == Seq::<S>::empty(),
    {
        Builder { streams: Vec::new() }
    }

    /// Stages one more source, after those already staged.
    pub fn add_stream(&mut self, stream: S) -> (r: &mut Self)
        ensures
            r.staged() == old(self).staged().push(stream),
            *final(self) == *final(r),
    {
        self.streams.push(stream);
        self
    }

    /// The number of sources staged.
    pub fn len(&self) -> (r: usize)
        ensures
            r == self.staged().len(),
    {
        self.streams.len()
    }

    /// Hands out every staged source, in the order they were added, and
    /// leaves the builder with none: a later run starts from what is added
    /// after this call.
    pub fn take_staged(&mut self) -> (r: Vec<S>)
        ensures
            r@ == old(self).staged(),
            final(self).staged() == Seq::<S>::empty(),
    {
        let mut taken: Vec<S> = Vec::new();
        core::mem::swap(&mut taken, &mut self.streams);
        taken
    }
}

} // verus!
