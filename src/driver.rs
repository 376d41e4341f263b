use vstd::prelude::*;

verus! {

/// What a driver waits for.
#[derive(PartialEq, Eq, Structural, Clone, Copy, Debug)]
pub enum Phase {
    /// The next entry of the merged source.
    Polling,
    /// The processor's result for the item last pulled.
    Transforming,
    /// The sink's answer to `send`.
    Sending,
    /// The sink's answer to `flush`.
    Flushing,
    /// The return of the processor's `on_error`.
    Reporting,
    /// Nothing: the sources are exhausted and the run is over.
    Stopped,
}

/// What the caller of a driver does next.
#[derive(PartialEq, Eq, Debug)]
pub enum Action<I, E, R> {
    /// Await the next entry of the merged source.
    Pull,
    /// Await the processor's `process` on this item.
    Process(I),
    /// Hand this error to the processor's `on_error`.
    Report(E),
    /// Await the sink's `send` of this output.
    Send(R),
    /// Await the sink's `flush`.
    Flush,
    /// Call the processor's `stopped` and end the run.
    Stop,
}

/// What came of the action that a driver asked for last.
#[derive(PartialEq, Eq, Debug)]
pub enum Event<I, E, R> {
    /// The source yielded an item.
    Pulled(I),
    /// The source yielded an error.
    PullFailed(E),
    /// Every source is exhausted.
    Exhausted,
    /// `process` produced an output.
    Processed(R),
    /// `process` failed.
    ProcessFailed(E),
    /// The sink accepted the output.
    Sent,
    /// The sink refused the output; its failure, converted.
    SendFailed(E),
    /// The sink flushed.
    Flushed,
    /// The flush failed; its failure, converted.
    FlushFailed(E),
    /// `on_error` returned.
    Reported,
}

/// Whether `event` answers what a driver in `phase` waits for.
pub open spec fn accepts<I, E, R>(phase: Phase, event: Event<I, E, R>) -> bool {
    match event {
        Event::Pulled(_) | Event::PullFailed(_) | Event::Exhausted => phase == Phase::Polling,
        Event::Processed(_) | Event::ProcessFailed(_) => phase == Phase::Transforming,
        Event::Sent | Event::SendFailed(_) => phase == Phase::Sending,
        Event::Flushed | Event::FlushFailed(_) => phase == Phase::Flushing,
        Event::Reported => phase == Phase::Reporting,
    }
}

/// The phase that an accepted event leads to, and the action that comes with it.
///
/// A source error, a failed `process` and a failed flush go to `on_error`, and
/// polling resumes afterwards. A refused output is dropped unless the driver
/// was made to report such failures.
pub open spec fn step<I, E, R>(report_send_failures: bool, event: Event<I, E, R>) -> (Phase, Action<I, E, R>) {
    match event {
        Event::Pulled(item) => (Phase::Transforming, Action::Process(item)),
        Event::PullFailed(e) => (Phase::Reporting, Action::Report(e)),
        Event::Exhausted => (Phase::Stopped, Action::Stop),
        Event::Processed(out) => (Phase::Sending, Action::Send(out)),
        Event::ProcessFailed(e) => (Phase::Reporting, Action::Report(e)),
        Event::Sent => (Phase::Flushing, Action::Flush),
        Event::SendFailed(e) => if report_send_failures {
            (Phase::Reporting, Action::Report(e))
        } else {
            (Phase::Polling, Action::Pull)
        },
        Event::Flushed => (Phase::Polling, Action::Pull),
        Event::FlushFailed(e) => (Phase::Reporting, Action::Report(e)),
        Event::Reported => (Phase::Polling, Action::Pull),
    }
}

/// The decisions of one run: it is told what came of each action, and says
/// which action follows. The caller performs the actions, starting with
/// `Action::Pull`.
pub struct Driver {
    phase: Phase,
    report_send_failures: bool,
}

impl Driver {
    pub closed spec fn phase_spec(&self) -> Phase {
        self.phase
    }

    pub closed spec fn reports_send_failures_spec(&self) -> bool {
        self.report_send_failures
    }

    /// A driver that waits for the first entry and drops outputs that the
    /// sink refuses.
    pub fn new() -> (d: Self)
        ensures
            d.phase_spec() == Phase::Polling,
            !d.reports_send_failures_spec(),
    {
        Driver { phase: Phase::Polling, report_send_failures: false }
    }

    /// A driver that waits for the first entry and hands each failure of
    /// the sink's `send` to `on_error`.
    pub fn reporting_send_failures() -> (d: Self)
        ensures
            d.phase_spec() == Phase::Polling,
            d.reports_send_failures_spec(),
    {
        Driver { phase: Phase::Polling, report_send_failures: true }
    }

    pub fn phase(&self) -> (r: Phase)
        ensures
            r == self.phase_spec(),
    {
        self.phase
    }

    pub fn reports_send_failures(&self) -> (r: bool)
        ensures
            r == self.reports_send_failures_spec(),
    {
        self.report_send_failures
    }

    /// Whether the driver waits for `event` now.
    pub fn accepts<I, E, R>(&self, event: &Event<I, E, R>) -> (r: bool)
        ensures
            r == accepts(self.phase_spec(), *event),
    {
        match event {
            Event::Pulled(_) | Event::PullFailed(_) | Event::Exhausted => self.phase == Phase::Polling,
            Event::Processed(_) | Event::ProcessFailed(_) => self.phase == Phase::Transforming,
            Event::Sent | Event::SendFailed(_) => self.phase == Phase::Sending,
            Event::Flushed | Event::FlushFailed(_) => self.phase == Phase::Flushing,
            Event::Reported => self.phase == Phase::Reporting,
        }
    }

    /// Takes what came of the last action and returns the next one. An event
    /// that does not answer the pending action is refused: the result is
    /// `None` and the driver is unchanged.
    pub fn handle<I, E, R>(&mut self, event: Event<I, E, R>) -> (r: Option<Action<I, E, R>>)
        ensures
            accepts(old(self).phase_spec(), event) ==> {
                &&& r == Some(step(old(self).reports_send_failures_spec(), event).1)
                &&& final(self).phase_spec() == step(old(self).reports_send_failures_spec(), event).0
            },
            !accepts(old(self).phase_spec(), event) ==> r is None && final(self).phase_spec() == old(self).phase_spec(),
            final(self).reports_send_failures_spec() == old(self).reports_send_failures_spec(),
    {
        if !self.accepts(&event) {
            return None;
        }
        let (phase, action) = match event {
            Event::Pulled(item) => (Phase::Transforming, Action::Process(item)),
            Event::PullFailed(e) => (Phase::Reporting, Action::Report(e)),
            Event::Exhausted => (Phase::Stopped, Action::Stop),
            Event::Processed(out) => (Phase::Sending, Action::Send(out)),
            Event::ProcessFailed(e) => (Phase::Reporting, Action::Report(e)),
            Event::Sent => (Phase::Flushing, Action::Flush),
            Event::SendFailed(e) => if self.report_send_failures {
                (Phase::Reporting, Action::Report(e))
            } else {
                (Phase::Polling, Action::Pull)
            },
            Event::Flushed => (Phase::Polling, Action::Pull),
            Event::FlushFailed(e) => (Phase::Reporting, Action::Report(e)),
            Event::Reported => (Phase::Polling, Action::Pull),
        };
        self.phase = phase;
        Some(action)
    }
}

} // verus!
