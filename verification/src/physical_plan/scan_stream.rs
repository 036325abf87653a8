//! The timing of one run of a scan partition.
use std::time::Instant;

use vstd::prelude::*;

use crate::outside::{RecordedTime, TimeMetric};

verus! {

/// What a poll of the stream has brought.
#[derive(Debug, Clone, Copy, PartialEq, Eq, Structural)]
pub enum PollOutcome {
    /// Nothing yet.
    Pending,
    /// A batch.
    Batch,
    /// An error.
    Error,
    /// The end of the stream.
    End,
}

/// A time that is recorded.
#[derive(Debug, Clone, Copy, PartialEq, Eq, Structural)]
pub enum ScanTiming {
    /// The time from the start to the first batch.
    TimeToFirstBatch,
    /// The time from the start to the end.
    ScanElapsed,
}

/// Which times have been recorded.
pub struct ScanProgress {
    pub first_batch_recorded: bool,
    pub finished: bool,
}

impl ScanProgress {
    /// Nothing has been recorded.
    pub open spec fn fresh() -> ScanProgress {
        ScanProgress { first_batch_recorded: false, finished: false }
    }

    /// What is recorded at a poll: the first batch, the first time one comes; the end, the first
    /// time that an error or the end of the stream comes.
    pub open spec fn at_poll(self, outcome: PollOutcome) -> Option<ScanTiming> {
        match outcome {
            PollOutcome::Batch if !self.first_batch_recorded => Some(ScanTiming::TimeToFirstBatch),
            PollOutcome::Error | PollOutcome::End => self.at_finish(),
            _ => None,
        }
    }

    /// What is recorded when the stream is over or dropped: its end, unless that was recorded.
    pub open spec fn at_finish(self) -> Option<ScanTiming> {
        if self.finished {
            None
        } else {
            Some(ScanTiming::ScanElapsed)
        }
    }

    /// What has been recorded once `timing` is recorded too.
    pub open spec fn with(self, timing: Option<ScanTiming>) -> ScanProgress {
        match timing {
            Some(ScanTiming::TimeToFirstBatch) => ScanProgress {
                first_batch_recorded: true,
                ..self
            },
            Some(ScanTiming::ScanElapsed) => ScanProgress { finished: true, ..self },
            None => self,
        }
    }
}

/// The timing of a stream.
pub struct ScanMetricStream {
    time_to_first_batch: TimeMetric,
    scan_elapsed: TimeMetric,
    started: Instant,
    first_batch_recorded: bool,
    finished: bool,
}

impl View for ScanMetricStream {
    type V = ScanProgress;

    closed spec fn view(&self) -> ScanProgress {
        ScanProgress { first_batch_recorded: self.first_batch_recorded, finished: self.finished }
    }
}

impl ScanMetricStream {
    /// Where the time to the first batch goes.
    pub closed spec fn spec_time_to_first_batch(&self) -> TimeMetric {
        self.time_to_first_batch
    }

    /// Where the time to the end goes.
    pub closed spec fn spec_scan_elapsed(&self) -> TimeMetric {
        self.scan_elapsed
    }

    /// When the stream started.
    pub closed spec fn spec_started(&self) -> Instant {
        self.started
    }

    /// The stream differs from `before` by `timing` alone: the time since the start was added to
    /// the metric that `timing` goes to, and nothing to the other.
    pub open spec fn same_but_recorded(&self, before: &Self, timing: Option<ScanTiming>) -> bool {
        let now = RecordedTime::Since(before.spec_started());
        let first_batch = before.spec_time_to_first_batch().recorded();
        let elapsed = before.spec_scan_elapsed().recorded();
        &&& self.spec_started() == before.spec_started()
        &&& self.spec_time_to_first_batch().label() == before.spec_time_to_first_batch().label()
        &&& self.spec_scan_elapsed().label() == before.spec_scan_elapsed().label()
        &&& self.spec_time_to_first_batch().recorded() == match timing {
            Some(ScanTiming::TimeToFirstBatch) => first_batch.push(now),
            _ => first_batch,
        }
        &&& self.spec_scan_elapsed().recorded() == match timing {
            Some(ScanTiming::ScanElapsed) => elapsed.push(now),
            _ => elapsed,
        }
    }

    /// Starts the clock.
    pub fn new(time_to_first_batch: TimeMetric, scan_elapsed: TimeMetric) -> (stream: Self)
        ensures
            stream@ == ScanProgress::fresh(),
            stream.spec_time_to_first_batch() == time_to_first_batch,
            stream.spec_scan_elapsed() == scan_elapsed,
    {
        ScanMetricStream {
            time_to_first_batch,
            scan_elapsed,
            started: Instant::now(),
            first_batch_recorded: false,
            finished: false,
        }
    }

    /// Records the end of the stream, unless it was recorded; returns what was recorded. This is
    /// also what dropping the stream does.
    pub fn finish(&mut self) -> (recorded: Option<ScanTiming>)
        ensures
            recorded == old(self)@.at_finish(),
            final(self)@ == old(self)@.with(recorded),
            final(self).same_but_recorded(old(self), recorded),
    {
        if !self.finished {
            self.scan_elapsed.add_elapsed(self.started);
            self.finished = true;
            Some(ScanTiming::ScanElapsed)
        } else {
            None
        }
    }

    /// Takes note of what a poll has brought; returns what was recorded.
    pub fn on_poll(&mut self, outcome: PollOutcome) -> (recorded: Option<ScanTiming>)
        ensures
            recorded == old(self)@.at_poll(outcome),
            final(self)@ == old(self)@.with(recorded),
            final(self).same_but_recorded(old(self), recorded),
    {
        match outcome {
            PollOutcome::Batch => {
                if !self.first_batch_recorded {
                    self.time_to_first_batch.add_elapsed(self.started);
                    self.first_batch_recorded = true;
                    Some(ScanTiming::TimeToFirstBatch)
                } else {
                    None
                }
            },
            PollOutcome::Error | PollOutcome::End => self.finish(),
            PollOutcome::Pending => None,
        }
    }
}

/// What has been recorded after `outcomes`.
pub open spec fn progress_after(outcomes: Seq<PollOutcome>) -> ScanProgress
    decreases outcomes.len(),
{
    if outcomes.len() == 0 {
        ScanProgress::fresh()
    } else {
        let before = progress_after(outcomes.drop_last());
        before.with(before.at_poll(outcomes.last()))
    }
}

/// How often `timing` is recorded at the polls `outcomes`.
pub open spec fn times_recorded(outcomes: Seq<PollOutcome>, timing: ScanTiming) -> nat
    decreases outcomes.len(),
{
    if outcomes.len() == 0 {
        0
    } else {
        let before = outcomes.drop_last();
        times_recorded(before, timing) + if progress_after(before).at_poll(outcomes.last()) == Some(
            timing,
        ) {
            1nat
        } else {
            0nat
        }
    }
}

/// However a stream is polled, once it is dropped its end has been recorded exactly once, and
/// the time to its first batch once if a batch came and never if none did.
pub proof fn lemma_every_time_is_recorded_once(outcomes: Seq<PollOutcome>)
    ensures
        times_recorded(outcomes, ScanTiming::ScanElapsed) + (if progress_after(
            outcomes,
        ).at_finish() == Some(ScanTiming::ScanElapsed) {
            1nat
        } else {
            0nat
        }) == 1,
        times_recorded(outcomes, ScanTiming::TimeToFirstBatch) == (if outcomes.contains(
            PollOutcome::Batch,
        ) {
            1nat
        } else {
            0nat
        }),
        progress_after(outcomes).first_batch_recorded <==> outcomes.contains(PollOutcome::Batch),
        progress_after(outcomes).finished <==> outcomes.contains(PollOutcome::Error)
            || outcomes.contains(PollOutcome::End),
    decreases outcomes.len(),
{
    if outcomes.len() > 0 {
        let before = outcomes.drop_last();
        lemma_every_time_is_recorded_once(before);
        assert forall|o: PollOutcome| #[trigger]
            outcomes.contains(o) <==> before.contains(o) || outcomes.last() == o by {
            if before.contains(o) {
                let i = choose|i: int| 0 <= i < before.len() && before[i] == o;
                assert(outcomes[i] == o);
            }
            if outcomes.contains(o) && outcomes.last() != o {
                let i = choose|i: int| 0 <= i < outcomes.len() && outcomes[i] == o;
                assert(before[i] == o);
            }
        }
    }
}

} // verus!
